//! In-memory model of the external ledger collaborator.
//!
//! The controller never holds balances itself: it delegates every value
//! movement to a ledger reached through this narrow interface (create an
//! asset, mint, burn, transfer). This module gives that collaborator a
//! verified in-memory realization, precise enough to state and prove how the
//! controller's counters reconcile with the balances it causes to exist.

use vstd::prelude::*;
use crate::types::{AccountRef, AssetRef, Identity};
use crate::errors::StablecoinError;

verus! {

/// One asset (mint) record: who may administer it, its decimal precision,
/// and the total supply currently in circulation.
#[derive(Clone, Copy, PartialEq, Eq, Structural, Debug)]
pub struct AssetRec {
    pub authority: Identity,
    pub decimals: u8,
    pub supply: u64,
}

/// One balance-holding account: its holder, the asset it holds, its balance.
#[derive(Clone, Copy, PartialEq, Eq, Structural, Debug)]
pub struct AccountRec {
    pub owner: Identity,
    pub asset: AssetRef,
    pub balance: u64,
}

/// The ledger: asset records and account records, addressed by index.
pub struct Ledger {
    pub assets: Vec<AssetRec>,
    pub accounts: Vec<AccountRec>,
}

/// Mathematical view of a [`Ledger`].
#[verifier::ext_equal]
pub ghost struct LedgerView {
    pub assets: Seq<AssetRec>,
    pub accounts: Seq<AccountRec>,
}

impl View for Ledger {
    type V = LedgerView;

    open spec fn view(&self) -> LedgerView {
        LedgerView { assets: self.assets@, accounts: self.accounts@ }
    }
}

/// What one account adds to the circulating balance of asset `a`.
pub open spec fn contribution(rec: AccountRec, a: AssetRef) -> int {
    if rec.asset == a {
        rec.balance as int
    } else {
        0
    }
}

/// Sum of the balances of all accounts holding asset `a`.
pub open spec fn sum_balances(accounts: Seq<AccountRec>, a: AssetRef) -> int
    decreases accounts.len(),
{
    if accounts.len() == 0 {
        0
    } else {
        sum_balances(accounts.drop_last(), a) + contribution(accounts.last(), a)
    }
}

impl LedgerView {
    pub open spec fn valid_asset(self, a: AssetRef) -> bool {
        a.id < self.assets.len()
    }

    pub open spec fn valid_account(self, r: AccountRef) -> bool {
        r.id < self.accounts.len()
    }

    pub open spec fn asset_at(self, a: AssetRef) -> AssetRec {
        self.assets[a.id as int]
    }

    pub open spec fn account_at(self, r: AccountRef) -> AccountRec {
        self.accounts[r.id as int]
    }

    pub open spec fn supply_of(self, a: AssetRef) -> u64 {
        self.asset_at(a).supply
    }

    pub open spec fn balance_of(self, r: AccountRef) -> u64 {
        self.account_at(r).balance
    }

    /// Well-formedness: every account holds an existing asset, and every
    /// asset's recorded supply equals the sum of the balances holding it.
    pub open spec fn wf(self) -> bool {
        &&& forall|i: int|
            0 <= i < self.accounts.len() ==> (#[trigger] self.accounts[i]).asset.id
                < self.assets.len()
        &&& forall|a: AssetRef|
            self.valid_asset(a) ==> #[trigger] self.supply_of(a) == sum_balances(self.accounts, a)
    }

    /// A mint succeeds exactly when the destination exists, holds the minted
    /// asset, and neither its balance nor the supply would overflow.
    pub open spec fn mint_ok(self, asset: AssetRef, destination: AccountRef, amount: u64) -> bool {
        &&& self.valid_asset(asset)
        &&& self.valid_account(destination)
        &&& self.account_at(destination).asset == asset
        &&& self.balance_of(destination) + amount <= u64::MAX
        &&& self.supply_of(asset) + amount <= u64::MAX
    }

    /// The ledger after a successful mint: the destination's balance and the
    /// asset's supply each grow by `amount`; nothing else moves.
    pub open spec fn mint_applied(
        self,
        asset: AssetRef,
        destination: AccountRef,
        amount: u64,
    ) -> LedgerView
        recommends
            self.mint_ok(asset, destination, amount),
    {
        LedgerView {
            assets: self.assets.update(
                asset.id as int,
                AssetRec {
                    authority: self.asset_at(asset).authority,
                    decimals: self.asset_at(asset).decimals,
                    supply: (self.supply_of(asset) + amount) as u64,
                },
            ),
            accounts: self.accounts.update(
                destination.id as int,
                AccountRec {
                    owner: self.account_at(destination).owner,
                    asset: self.account_at(destination).asset,
                    balance: (self.balance_of(destination) + amount) as u64,
                },
            ),
        }
    }

    /// Outcome of a burn request: `Ok` or the one error it fails with.
    /// The holder check comes before the balance check, so a forged caller
    /// is told `Unauthorized`, never how much the account holds.
    pub open spec fn burn_check(
        self,
        asset: AssetRef,
        source: AccountRef,
        caller: Identity,
        amount: u64,
    ) -> Result<(), StablecoinError> {
        if !self.valid_asset(asset) || !self.valid_account(source) || self.account_at(
            source,
        ).asset != asset {
            Err(StablecoinError::LedgerBurnFailed)
        } else if self.account_at(source).owner != caller {
            Err(StablecoinError::Unauthorized)
        } else if self.balance_of(source) < amount || self.supply_of(asset) < amount {
            Err(StablecoinError::LedgerBurnFailed)
        } else {
            Ok(())
        }
    }

    /// The ledger after a successful burn: the source's balance and the
    /// asset's supply each shrink by `amount`.
    pub open spec fn burn_applied(self, asset: AssetRef, source: AccountRef, amount: u64) -> LedgerView
        recommends
            self.burn_check(asset, source, self.account_at(source).owner, amount) is Ok,
    {
        LedgerView {
            assets: self.assets.update(
                asset.id as int,
                AssetRec {
                    authority: self.asset_at(asset).authority,
                    decimals: self.asset_at(asset).decimals,
                    supply: (self.supply_of(asset) - amount) as u64,
                },
            ),
            accounts: self.accounts.update(
                source.id as int,
                AccountRec {
                    owner: self.account_at(source).owner,
                    asset: self.account_at(source).asset,
                    balance: (self.balance_of(source) - amount) as u64,
                },
            ),
        }
    }

    /// Outcome of a transfer request: `Ok` or the one error it fails with.
    pub open spec fn transfer_check(
        self,
        asset: AssetRef,
        source: AccountRef,
        destination: AccountRef,
        caller: Identity,
        amount: u64,
    ) -> Result<(), StablecoinError> {
        if !self.valid_asset(asset) || !self.valid_account(source) || !self.valid_account(
            destination,
        ) || self.account_at(source).asset != asset || self.account_at(destination).asset
            != asset {
            Err(StablecoinError::LedgerTransferFailed)
        } else if self.account_at(source).owner != caller {
            Err(StablecoinError::Unauthorized)
        } else if self.balance_of(source) < amount {
            Err(StablecoinError::LedgerTransferFailed)
        } else if source.id != destination.id && self.balance_of(destination) + amount
            > u64::MAX {
            Err(StablecoinError::LedgerTransferFailed)
        } else {
            Ok(())
        }
    }

    /// The ledger after a successful transfer: `amount` moves from source to
    /// destination; supply is untouched. A transfer to the source itself is
    /// a legal no-op.
    pub open spec fn transfer_applied(
        self,
        asset: AssetRef,
        source: AccountRef,
        destination: AccountRef,
        amount: u64,
    ) -> LedgerView {
        if source.id == destination.id {
            self
        } else {
            LedgerView {
                assets: self.assets,
                accounts: self.accounts.update(
                    source.id as int,
                    AccountRec {
                        owner: self.account_at(source).owner,
                        asset: self.account_at(source).asset,
                        balance: (self.balance_of(source) - amount) as u64,
                    },
                ).update(
                    destination.id as int,
                    AccountRec {
                        owner: self.account_at(destination).owner,
                        asset: self.account_at(destination).asset,
                        balance: (self.balance_of(destination) + amount) as u64,
                    },
                ),
            }
        }
    }
}

impl Ledger {
    /// An empty ledger: no assets, no accounts.
    pub fn new() -> (l: Ledger)
        ensures
            l@.assets.len() == 0,
            l@.accounts.len() == 0,
    {
        Ledger { assets: Vec::new(), accounts: Vec::new() }
    }

    /// Creates a fresh asset record with zero supply. The in-memory ledger
    /// never fails creation; the `Result` is the collaborator interface.
    pub fn create_asset(&mut self, authority: Identity, decimals: u8) -> (r: Result<
        AssetRef,
        StablecoinError,
    >)
        ensures
            r == Ok::<AssetRef, StablecoinError>(
                AssetRef { id: old(self)@.assets.len() as usize },
            ),
            final(self)@.assets == old(self)@.assets.push(
                AssetRec { authority, decimals, supply: 0 },
            ),
            final(self)@.accounts == old(self)@.accounts,
    {
        let id: usize = self.assets.len();
        self.assets.push(AssetRec { authority, decimals, supply: 0 });
        Ok(AssetRef { id })
    }

    /// Creates a fresh account for `owner`, holding `asset`, with balance 0.
    /// Account creation is outside the controller's scope; the harness uses
    /// this to set scenarios up.
    pub fn create_account(&mut self, owner: Identity, asset: AssetRef) -> (r: AccountRef)
        requires
            old(self)@.valid_asset(asset),
        ensures
            r == (AccountRef { id: old(self)@.accounts.len() as usize }),
            final(self)@.accounts == old(self)@.accounts.push(
                AccountRec { owner, asset, balance: 0 },
            ),
            final(self)@.assets == old(self)@.assets,
    {
        let id: usize = self.accounts.len();
        self.accounts.push(AccountRec { owner, asset, balance: 0 });
        AccountRef { id }
    }

    /// Increases `destination`'s balance and the asset's supply by `amount`,
    /// or rejects the mint wholesale: on `Err` nothing has moved.
    pub fn mint(&mut self, asset: AssetRef, destination: AccountRef, amount: u64) -> (r: Result<
        (),
        StablecoinError,
    >)
        ensures
            old(self)@.mint_ok(asset, destination, amount) ==> r == Ok::<(), StablecoinError>(())
                && final(self)@ == old(self)@.mint_applied(asset, destination, amount),
            !old(self)@.mint_ok(asset, destination, amount) ==> r == Err::<(), StablecoinError>(
                StablecoinError::LedgerMintFailed,
            ) && final(self)@ == old(self)@,
    {
        if asset.id >= self.assets.len() {
            return Err(StablecoinError::LedgerMintFailed);
        }
        if destination.id >= self.accounts.len() {
            return Err(StablecoinError::LedgerMintFailed);
        }
        let acct = self.accounts[destination.id];
        if acct.asset != asset {
            return Err(StablecoinError::LedgerMintFailed);
        }
        let new_balance = match acct.balance.checked_add(amount) {
            None => {
                return Err(StablecoinError::LedgerMintFailed);
            },
            Some(v) => v,
        };
        let ast = self.assets[asset.id];
        let new_supply = match ast.supply.checked_add(amount) {
            None => {
                return Err(StablecoinError::LedgerMintFailed);
            },
            Some(v) => v,
        };
        self.accounts[destination.id] = AccountRec {
            owner: acct.owner,
            asset: acct.asset,
            balance: new_balance,
        };
        self.assets[asset.id] = AssetRec {
            authority: ast.authority,
            decimals: ast.decimals,
            supply: new_supply,
        };
        proof {
            assert(self@ =~= old(self)@.mint_applied(asset, destination, amount));
        }
        Ok(())
    }

    /// Decreases `source`'s balance and the asset's supply by `amount`,
    /// provided `caller` is the holder of `source` and the balance suffices;
    /// on `Err` nothing has moved.
    pub fn burn(
        &mut self,
        asset: AssetRef,
        source: AccountRef,
        caller: Identity,
        amount: u64,
    ) -> (r: Result<(), StablecoinError>)
        ensures
            r == old(self)@.burn_check(asset, source, caller, amount),
            r is Ok ==> final(self)@ == old(self)@.burn_applied(asset, source, amount),
            r is Err ==> final(self)@ == old(self)@,
    {
        if asset.id >= self.assets.len() {
            return Err(StablecoinError::LedgerBurnFailed);
        }
        if source.id >= self.accounts.len() {
            return Err(StablecoinError::LedgerBurnFailed);
        }
        let acct = self.accounts[source.id];
        if acct.asset != asset {
            return Err(StablecoinError::LedgerBurnFailed);
        }
        if acct.owner != caller {
            return Err(StablecoinError::Unauthorized);
        }
        let ast = self.assets[asset.id];
        if acct.balance < amount || ast.supply < amount {
            return Err(StablecoinError::LedgerBurnFailed);
        }
        self.accounts[source.id] = AccountRec {
            owner: acct.owner,
            asset: acct.asset,
            balance: acct.balance - amount,
        };
        self.assets[asset.id] = AssetRec {
            authority: ast.authority,
            decimals: ast.decimals,
            supply: ast.supply - amount,
        };
        proof {
            assert(self@ =~= old(self)@.burn_applied(asset, source, amount));
        }
        Ok(())
    }

    /// Moves `amount` from `source` to `destination`, provided `caller` is
    /// the holder of `source`; supply is untouched. On `Err` nothing moved.
    pub fn transfer(
        &mut self,
        asset: AssetRef,
        source: AccountRef,
        destination: AccountRef,
        caller: Identity,
        amount: u64,
    ) -> (r: Result<(), StablecoinError>)
        ensures
            r == old(self)@.transfer_check(asset, source, destination, caller, amount),
            r is Ok ==> final(self)@ == old(self)@.transfer_applied(
                asset,
                source,
                destination,
                amount,
            ),
            r is Err ==> final(self)@ == old(self)@,
    {
        if asset.id >= self.assets.len() {
            return Err(StablecoinError::LedgerTransferFailed);
        }
        if source.id >= self.accounts.len() || destination.id >= self.accounts.len() {
            return Err(StablecoinError::LedgerTransferFailed);
        }
        let src = self.accounts[source.id];
        let dst = self.accounts[destination.id];
        if src.asset != asset || dst.asset != asset {
            return Err(StablecoinError::LedgerTransferFailed);
        }
        if src.owner != caller {
            return Err(StablecoinError::Unauthorized);
        }
        if src.balance < amount {
            return Err(StablecoinError::LedgerTransferFailed);
        }
        if source.id == destination.id {
            return Ok(());
        }
        let new_dst_balance = match dst.balance.checked_add(amount) {
            None => {
                return Err(StablecoinError::LedgerTransferFailed);
            },
            Some(v) => v,
        };
        self.accounts[source.id] = AccountRec {
            owner: src.owner,
            asset: src.asset,
            balance: src.balance - amount,
        };
        self.accounts[destination.id] = AccountRec {
            owner: dst.owner,
            asset: dst.asset,
            balance: new_dst_balance,
        };
        proof {
            assert(self@ =~= old(self)@.transfer_applied(asset, source, destination, amount));
        }
        Ok(())
    }

    /// The balance held by `account`, or `None` for an unknown account.
    pub fn balance_of(&self, account: AccountRef) -> (r: Option<u64>)
        ensures
            r == (if self@.valid_account(account) {
                Some(self@.balance_of(account))
            } else {
                None::<u64>
            }),
    {
        if account.id < self.accounts.len() {
            Some(self.accounts[account.id].balance)
        } else {
            None
        }
    }

    /// The circulating supply of `asset`, or `None` for an unknown asset.
    pub fn supply_of(&self, asset: AssetRef) -> (r: Option<u64>)
        ensures
            r == (if self@.valid_asset(asset) {
                Some(self@.supply_of(asset))
            } else {
                None::<u64>
            }),
    {
        if asset.id < self.assets.len() {
            Some(self.assets[asset.id].supply)
        } else {
            None
        }
    }
}

/// Appending an account adds exactly its contribution to every asset's sum.
pub proof fn lemma_sum_push(accounts: Seq<AccountRec>, a: AssetRef, rec: AccountRec)
    ensures
        sum_balances(accounts.push(rec), a) == sum_balances(accounts, a) + contribution(rec, a),
{
    assert(accounts.push(rec).drop_last() =~= accounts);
    assert(accounts.push(rec).last() == rec);
}

/// Replacing one account shifts every asset's sum by the difference of the
/// old and new contributions.
pub proof fn lemma_sum_update(accounts: Seq<AccountRec>, a: AssetRef, i: int, rec: AccountRec)
    requires
        0 <= i < accounts.len(),
    ensures
        sum_balances(accounts.update(i, rec), a) == sum_balances(accounts, a) - contribution(
            accounts[i],
            a,
        ) + contribution(rec, a),
    decreases accounts.len(),
{
    let upd = accounts.update(i, rec);
    if i == accounts.len() - 1 {
        assert(upd.drop_last() =~= accounts.drop_last());
        assert(upd.last() == rec);
    } else {
        assert(upd.drop_last() =~= accounts.drop_last().update(i, rec));
        assert(upd.last() == accounts.last());
        lemma_sum_update(accounts.drop_last(), a, i, rec);
    }
}

/// An asset no account holds has sum zero.
pub proof fn lemma_sum_absent(accounts: Seq<AccountRec>, a: AssetRef)
    requires
        forall|i: int| 0 <= i < accounts.len() ==> (#[trigger] accounts[i]).asset != a,
    ensures
        sum_balances(accounts, a) == 0,
    decreases accounts.len(),
{
    if accounts.len() > 0 {
        assert(accounts[accounts.len() - 1] == accounts.last());
        lemma_sum_absent(accounts.drop_last(), a);
    }
}

/// Creating an asset preserves ledger well-formedness: the new record starts
/// with zero supply and, being fresh, is held by no account.
pub proof fn lemma_create_asset_preserves_wf(l: LedgerView, authority: Identity, decimals: u8)
    requires
        l.wf(),
    ensures
        (LedgerView {
            assets: l.assets.push(AssetRec { authority, decimals, supply: 0 }),
            accounts: l.accounts,
        }).wf(),
{
    let l2 = LedgerView {
        assets: l.assets.push(AssetRec { authority, decimals, supply: 0 }),
        accounts: l.accounts,
    };
    assert forall|a: AssetRef| l2.valid_asset(a) implies #[trigger] l2.supply_of(a) == sum_balances(
        l2.accounts,
        a,
    ) by {
        if a.id < l.assets.len() {
            assert(l.valid_asset(a));
            assert(l2.supply_of(a) == l.supply_of(a));
        } else {
            assert(forall|i: int|
                0 <= i < l2.accounts.len() ==> (#[trigger] l2.accounts[i]).asset != a);
            lemma_sum_absent(l2.accounts, a);
        }
    }
}

/// Creating an account preserves well-formedness: it holds an existing asset
/// and starts with balance zero, so no sum moves.
pub proof fn lemma_create_account_preserves_wf(l: LedgerView, owner: Identity, asset: AssetRef)
    requires
        l.wf(),
        l.valid_asset(asset),
    ensures
        (LedgerView {
            assets: l.assets,
            accounts: l.accounts.push(AccountRec { owner, asset, balance: 0 }),
        }).wf(),
{
    let rec = AccountRec { owner, asset, balance: 0 };
    let l2 = LedgerView { assets: l.assets, accounts: l.accounts.push(rec) };
    assert forall|a: AssetRef| l2.valid_asset(a) implies #[trigger] l2.supply_of(a) == sum_balances(
        l2.accounts,
        a,
    ) by {
        lemma_sum_push(l.accounts, a, rec);
        assert(l.valid_asset(a));
        assert(l.supply_of(a) == sum_balances(l.accounts, a));
        assert(contribution(rec, a) == 0);
    }
}

/// A successful mint preserves well-formedness: the asset's supply and the
/// destination's contribution grow by the same amount.
pub proof fn lemma_mint_preserves_wf(
    l: LedgerView,
    asset: AssetRef,
    destination: AccountRef,
    amount: u64,
)
    requires
        l.wf(),
        l.mint_ok(asset, destination, amount),
    ensures
        l.mint_applied(asset, destination, amount).wf(),
{
    let l2 = l.mint_applied(asset, destination, amount);
    let rec = AccountRec {
        owner: l.account_at(destination).owner,
        asset: l.account_at(destination).asset,
        balance: (l.balance_of(destination) + amount) as u64,
    };
    assert forall|a: AssetRef| l2.valid_asset(a) implies #[trigger] l2.supply_of(a) == sum_balances(
        l2.accounts,
        a,
    ) by {
        lemma_sum_update(l.accounts, a, destination.id as int, rec);
        assert(l.valid_asset(a));
        if a == asset {
            assert(l2.supply_of(a) == l.supply_of(a) + amount);
        } else {
            assert(l2.supply_of(a) == l.supply_of(a));
            assert(contribution(l.accounts[destination.id as int], a) == 0);
            assert(contribution(rec, a) == 0);
        }
    }
}

/// A successful burn preserves well-formedness: the asset's supply and the
/// source's contribution shrink by the same amount.
pub proof fn lemma_burn_preserves_wf(
    l: LedgerView,
    asset: AssetRef,
    source: AccountRef,
    caller: Identity,
    amount: u64,
)
    requires
        l.wf(),
        l.burn_check(asset, source, caller, amount) is Ok,
    ensures
        l.burn_applied(asset, source, amount).wf(),
{
    let l2 = l.burn_applied(asset, source, amount);
    let rec = AccountRec {
        owner: l.account_at(source).owner,
        asset: l.account_at(source).asset,
        balance: (l.balance_of(source) - amount) as u64,
    };
    assert forall|a: AssetRef| l2.valid_asset(a) implies #[trigger] l2.supply_of(a) == sum_balances(
        l2.accounts,
        a,
    ) by {
        lemma_sum_update(l.accounts, a, source.id as int, rec);
        assert(l.valid_asset(a));
        assert(l.supply_of(a) == sum_balances(l.accounts, a));
        assert(sum_balances(l2.accounts, a) == sum_balances(l.accounts, a) - contribution(
            l.accounts[source.id as int],
            a,
        ) + contribution(rec, a));
        if a == asset {
            assert(contribution(l.accounts[source.id as int], a) == l.balance_of(source) as int);
            assert(contribution(rec, a) == l.balance_of(source) - amount);
            assert(l2.supply_of(a) == l.supply_of(a) - amount);
        } else {
            assert(l2.supply_of(a) == l.supply_of(a));
            assert(contribution(l.accounts[source.id as int], a) == 0);
            assert(contribution(rec, a) == 0);
        }
    }
}

/// A successful transfer preserves well-formedness: both touched accounts
/// hold the same asset, so their contribution deltas cancel.
pub proof fn lemma_transfer_preserves_wf(
    l: LedgerView,
    asset: AssetRef,
    source: AccountRef,
    destination: AccountRef,
    caller: Identity,
    amount: u64,
)
    requires
        l.wf(),
        l.transfer_check(asset, source, destination, caller, amount) is Ok,
    ensures
        l.transfer_applied(asset, source, destination, amount).wf(),
{
    if source.id != destination.id {
        let l2 = l.transfer_applied(asset, source, destination, amount);
        let src_rec = AccountRec {
            owner: l.account_at(source).owner,
            asset: l.account_at(source).asset,
            balance: (l.balance_of(source) - amount) as u64,
        };
        let dst_rec = AccountRec {
            owner: l.account_at(destination).owner,
            asset: l.account_at(destination).asset,
            balance: (l.balance_of(destination) + amount) as u64,
        };
        let mid = l.accounts.update(source.id as int, src_rec);
        assert forall|a: AssetRef| l2.valid_asset(a) implies #[trigger] l2.supply_of(a)
            == sum_balances(l2.accounts, a) by {
            lemma_sum_update(l.accounts, a, source.id as int, src_rec);
            lemma_sum_update(mid, a, destination.id as int, dst_rec);
            assert(mid[destination.id as int] == l.accounts[destination.id as int]);
            assert(l.valid_asset(a));
            assert(l.supply_of(a) == sum_balances(l.accounts, a));
            assert(l2.supply_of(a) == l.supply_of(a));
            assert(sum_balances(mid, a) == sum_balances(l.accounts, a) - contribution(
                l.accounts[source.id as int],
                a,
            ) + contribution(src_rec, a));
            assert(sum_balances(l2.accounts, a) == sum_balances(mid, a) - contribution(
                l.accounts[destination.id as int],
                a,
            ) + contribution(dst_rec, a));
            if a == asset {
                assert(contribution(l.accounts[source.id as int], a)
                    == l.balance_of(source) as int);
                assert(contribution(src_rec, a) == l.balance_of(source) - amount);
                assert(contribution(l.accounts[destination.id as int], a)
                    == l.balance_of(destination) as int);
                assert(contribution(dst_rec, a) == l.balance_of(destination) + amount);
            } else {
                assert(contribution(l.accounts[source.id as int], a) == 0);
                assert(contribution(src_rec, a) == 0);
                assert(contribution(l.accounts[destination.id as int], a) == 0);
                assert(contribution(dst_rec, a) == 0);
            }
        }
    }
}

} // verus!
