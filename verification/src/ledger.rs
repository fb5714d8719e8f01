//! The balance ledger of a tapp: amounts held by addresses, changed by mint,
//! burn and transfer operations.
use vstd::prelude::*;
use vstd::string::*;
use crate::amount::Amount;

verus! {

/// An operation on the ledger.
#[derive(Debug)]
pub enum BalanceOperation {
    /// Add the amount to the address.
    Mint(String, Amount),
    /// Take the amount from the address.
    Burn(String, Amount),
    /// Take the amount from the first address and add it to the second.
    Transfer(String, String, Amount),
}

/// Why an operation was refused.
#[derive(Debug, Clone, Copy, PartialEq, Eq, Structural)]
pub enum BalanceError {
    /// The addition failed.
    AddError,
    /// The address holds less than the amount to take.
    SubError,
}

/// One address and what it holds.
#[derive(Debug)]
pub struct BalanceEntry {
    address: String,
    amount: Amount,
}

/// The balances of one tapp. Its view maps each address to its amount.
#[derive(Debug)]
pub struct BalanceState {
    tapp_id: u64,
    balances: Vec<BalanceEntry>,
}

/// No address occurs twice.
spec fn addresses_unique(s: Seq<BalanceEntry>) -> bool {
    forall|i: int, j: int|
        0 <= i < s.len() && 0 <= j < s.len() && i != j ==> #[trigger] s[i].address@ != #[trigger] s[j].address@
}

/// Whether an entry of `s` is for address `a`.
spec fn holds_address(s: Seq<BalanceEntry>, a: Seq<char>) -> bool {
    exists|i: int| 0 <= i < s.len() && #[trigger] s[i].address@ == a
}

/// The map from address to amount that a sequence of entries stands for.
spec fn entries_view(s: Seq<BalanceEntry>) -> Map<Seq<char>, nat> {
    Map::new(
        |a: Seq<char>| holds_address(s, a),
        |a: Seq<char>| s[choose|i: int| 0 <= i < s.len() && #[trigger] s[i].address@ == a].amount@,
    )
}

/// Amount held by `a` in `m`: zero when `a` holds nothing.
pub open spec fn balance_of(m: Map<Seq<char>, nat>, a: Seq<char>) -> nat {
    if m.contains_key(a) {
        m[a]
    } else {
        0
    }
}

/// The ledger after adding `x` to `a`.
pub open spec fn spec_increase(m: Map<Seq<char>, nat>, a: Seq<char>, x: nat) -> Map<Seq<char>, nat> {
    m.insert(a, balance_of(m, a) + x)
}

/// The ledger after taking `x` from `a`: an address that does not occur is
/// left alone, a balance that falls to zero is dropped.
pub open spec fn spec_decrease(m: Map<Seq<char>, nat>, a: Seq<char>, x: nat) -> Result<
    Map<Seq<char>, nat>,
    BalanceError,
> {
    if !m.contains_key(a) {
        Ok(m)
    } else if m[a] < x {
        Err(BalanceError::SubError)
    } else if m[a] - x == 0 {
        Ok(m.remove(a))
    } else {
        Ok(m.insert(a, (m[a] - x) as nat))
    }
}

/// The ledger after one operation, or the error that refuses it.
pub open spec fn spec_execute(m: Map<Seq<char>, nat>, op: BalanceOperation) -> Result<
    Map<Seq<char>, nat>,
    BalanceError,
> {
    match op {
        BalanceOperation::Mint(a, x) => Ok(spec_increase(m, a@, x@)),
        BalanceOperation::Burn(a, x) => spec_decrease(m, a@, x@),
        BalanceOperation::Transfer(f, t, x) => match spec_decrease(m, f@, x@) {
            Ok(m1) => Ok(spec_increase(m1, t@, x@)),
            Err(e) => Err(e),
        },
    }
}

/// The ledger after a sequence of operations run in order up to the first
/// that is refused, and that refusal if there is one.
pub open spec fn spec_batch(m: Map<Seq<char>, nat>, ops: Seq<BalanceOperation>) -> (
    Map<Seq<char>, nat>,
    Result<(), BalanceError>,
)
    decreases ops.len(),
{
    if ops.len() == 0 {
        (m, Ok(()))
    } else {
        match spec_execute(m, ops[0]) {
            Ok(m1) => spec_batch(m1, ops.drop_first()),
            Err(e) => (m, Err(e)),
        }
    }
}

proof fn lemma_view_at(s: Seq<BalanceEntry>, i: int)
    requires
        addresses_unique(s),
        0 <= i < s.len(),
    ensures
        entries_view(s).contains_key(s[i].address@),
        entries_view(s)[s[i].address@] == s[i].amount@,
{
    let a = s[i].address@;
    assert(holds_address(s, a));
    let j = choose|j: int| 0 <= j < s.len() && #[trigger] s[j].address@ == a;
    assert(j == i);
}

proof fn lemma_view_absent(s: Seq<BalanceEntry>, a: Seq<char>)
    requires
        forall|j: int| 0 <= j < s.len() ==> #[trigger] s[j].address@ != a,
    ensures
        !entries_view(s).contains_key(a),
{
}

proof fn lemma_view_update(s: Seq<BalanceEntry>, i: int, e: BalanceEntry)
    requires
        addresses_unique(s),
        0 <= i < s.len(),
        e.address@ == s[i].address@,
    ensures
        addresses_unique(s.update(i, e)),
        entries_view(s.update(i, e)) =~= entries_view(s).insert(e.address@, e.amount@),
{
    let t = s.update(i, e);
    assert forall|k: int| 0 <= k < s.len() implies #[trigger] t[k].address@ == s[k].address@ by {}
    assert(addresses_unique(t)) by {
        assert forall|p: int, q: int| 0 <= p < t.len() && 0 <= q < t.len() && p != q implies #[trigger] t[p].address@ != #[trigger] t[q].address@ by {
            assert(t[p].address@ == s[p].address@);
            assert(t[q].address@ == s[q].address@);
        }
    }
    let m = entries_view(s).insert(e.address@, e.amount@);
    assert forall|a: Seq<char>| #[trigger] entries_view(t).contains_key(a) <==> m.contains_key(a) by {
        if holds_address(s, a) {
            let k = choose|k: int| 0 <= k < s.len() && #[trigger] s[k].address@ == a;
            assert(t[k].address@ == a);
        }
        if holds_address(t, a) {
            let k = choose|k: int| 0 <= k < t.len() && #[trigger] t[k].address@ == a;
            assert(s[k].address@ == a);
        }
    }
    assert forall|a: Seq<char>| #[trigger] entries_view(t).contains_key(a) implies entries_view(t)[a] == m[a] by {
        let k = choose|k: int| 0 <= k < t.len() && #[trigger] t[k].address@ == a;
        assert(s[k].address@ == a);
        lemma_view_at(t, k);
        if k != i {
            lemma_view_at(s, k);
        }
    }
}

proof fn lemma_view_push(s: Seq<BalanceEntry>, e: BalanceEntry)
    requires
        addresses_unique(s),
        forall|j: int| 0 <= j < s.len() ==> #[trigger] s[j].address@ != e.address@,
    ensures
        addresses_unique(s.push(e)),
        entries_view(s.push(e)) =~= entries_view(s).insert(e.address@, e.amount@),
{
    let t = s.push(e);
    assert forall|k: int| 0 <= k < s.len() implies #[trigger] t[k] == s[k] by {}
    assert(addresses_unique(t)) by {
        assert forall|p: int, q: int| 0 <= p < t.len() && 0 <= q < t.len() && p != q implies #[trigger] t[p].address@ != #[trigger] t[q].address@ by {
            if p < s.len() && q < s.len() {
                assert(t[p] == s[p]);
                assert(t[q] == s[q]);
            } else if p < s.len() {
                assert(t[p] == s[p]);
            } else if q < s.len() {
                assert(t[q] == s[q]);
            }
        }
    }
    let m = entries_view(s).insert(e.address@, e.amount@);
    assert forall|a: Seq<char>| #[trigger] entries_view(t).contains_key(a) <==> m.contains_key(a) by {
        if holds_address(s, a) {
            let k = choose|k: int| 0 <= k < s.len() && #[trigger] s[k].address@ == a;
            assert(t[k].address@ == a);
        }
        if a == e.address@ {
            assert(t[s.len() as int].address@ == a);
        }
        if holds_address(t, a) {
            let k = choose|k: int| 0 <= k < t.len() && #[trigger] t[k].address@ == a;
            if k < s.len() {
                assert(s[k].address@ == a);
            }
        }
    }
    assert forall|a: Seq<char>| #[trigger] entries_view(t).contains_key(a) implies entries_view(t)[a] == m[a] by {
        let k = choose|k: int| 0 <= k < t.len() && #[trigger] t[k].address@ == a;
        lemma_view_at(t, k);
        if k < s.len() {
            assert(s[k].address@ == a);
            lemma_view_at(s, k);
        }
    }
}

proof fn lemma_view_remove(s: Seq<BalanceEntry>, i: int)
    requires
        addresses_unique(s),
        0 <= i < s.len(),
    ensures
        addresses_unique(s.remove(i)),
        entries_view(s.remove(i)) =~= entries_view(s).remove(s[i].address@),
{
    let t = s.remove(i);
    let old_a = s[i].address@;
    assert forall|k: int| 0 <= k < t.len() implies #[trigger] t[k] == (if k < i { s[k] } else { s[k + 1] }) by {}
    assert(addresses_unique(t)) by {
        assert forall|p: int, q: int| 0 <= p < t.len() && 0 <= q < t.len() && p != q implies #[trigger] t[p].address@ != #[trigger] t[q].address@ by {
            let pp = if p < i { p } else { p + 1 };
            let qq = if q < i { q } else { q + 1 };
            assert(t[p] == s[pp]);
            assert(t[q] == s[qq]);
        }
    }
    let m = entries_view(s).remove(old_a);
    assert forall|a: Seq<char>| #[trigger] entries_view(t).contains_key(a) <==> m.contains_key(a) by {
        if holds_address(s, a) && a != old_a {
            let k = choose|k: int| 0 <= k < s.len() && #[trigger] s[k].address@ == a;
            assert(k != i);
            let kk = if k < i { k } else { k - 1 };
            assert(t[kk] == s[k]);
            assert(t[kk].address@ == a);
        }
        if holds_address(t, a) {
            let k = choose|k: int| 0 <= k < t.len() && #[trigger] t[k].address@ == a;
            let kk = if k < i { k } else { k + 1 };
            assert(t[k] == s[kk]);
            assert(s[kk].address@ == a);
            assert(kk != i);
            assert(s[i].address@ != s[kk].address@);
        }
    }
    assert forall|a: Seq<char>| #[trigger] entries_view(t).contains_key(a) implies entries_view(t)[a] == m[a] by {
        let k = choose|k: int| 0 <= k < t.len() && #[trigger] t[k].address@ == a;
        let kk = if k < i { k } else { k + 1 };
        assert(t[k] == s[kk]);
        lemma_view_at(t, k);
        lemma_view_at(s, kk);
    }
}

impl View for BalanceState {
    type V = Map<Seq<char>, nat>;

    closed spec fn view(&self) -> Map<Seq<char>, nat> {
        entries_view(self.balances@)
    }
}

impl BalanceState {
    #[verifier::type_invariant]
    spec fn inv(self) -> bool {
        addresses_unique(self.balances@)
    }

    /// The tapp whose balances these are.
    pub closed spec fn spec_tapp_id(&self) -> u64 {
        self.tapp_id
    }

    /// The tapp whose balances these are.
    pub fn tapp_id(&self) -> (r: u64)
        ensures
            r == self.spec_tapp_id(),
    {
        self.tapp_id
    }

    /// Index of the entry for `address`, if there is one.
    fn find(&self, address: &String) -> (r: Option<usize>)
        ensures
            r matches Some(i) ==> i < self.balances@.len() && self.balances@[i as int].address@ == address@,
            r is None ==> forall|j: int| 0 <= j < self.balances@.len() ==> #[trigger] self.balances@[j].address@ != address@,
    {
        let mut i: usize = 0;
        while i < self.balances.len()
            invariant
                i <= self.balances@.len(),
                forall|j: int| 0 <= j < i ==> #[trigger] self.balances@[j].address@ != address@,
            decreases self.balances@.len() - i,
        {
            if self.balances[i].address == *address {
                return Some(i);
            }
            i = i + 1;
        }
        None
    }

    /// The amount that `address` holds, zero when it holds nothing.
    pub fn balance(&self, address: &str) -> (r: Amount)
        ensures
            r@ == balance_of(self@, address@),
    {
        proof { use_type_invariant(self); }
        let key = String::from_str(address);
        match self.find(&key) {
            Some(i) => {
                proof { lemma_view_at(self.balances@, i as int); }
                self.balances[i].amount.duplicate()
            },
            None => {
                proof { lemma_view_absent(self.balances@, address@); }
                Amount::from_u128(0)
            },
        }
    }

    /// Whether `address` has an entry in the ledger.
    pub fn contains(&self, address: &str) -> (r: bool)
        ensures
            r == self@.contains_key(address@),
    {
        proof { use_type_invariant(self); }
        let key = String::from_str(address);
        match self.find(&key) {
            Some(i) => {
                proof { lemma_view_at(self.balances@, i as int); }
                true
            },
            None => {
                proof { lemma_view_absent(self.balances@, address@); }
                false
            },
        }
    }

    /// Adds `amount` to `address`.
    fn increase_balance(&mut self, address: &str, amount: &Amount) -> (r: Result<(), BalanceError>)
        ensures
            r is Ok,
            final(self)@ == spec_increase(old(self)@, address@, amount@),
            final(self).spec_tapp_id() == old(self).spec_tapp_id(),
    {
        proof { use_type_invariant(&*self); }
        let key = String::from_str(address);
        match self.find(&key) {
            Some(i) => {
                let sum = match self.balances[i].amount.checked_add(amount) {
                    Some(v) => v,
                    None => return Err(BalanceError::AddError),
                };
                proof { lemma_view_at(self.balances@, i as int); }
                let entry = BalanceEntry { address: key, amount: sum };
                proof { lemma_view_update(self.balances@, i as int, entry); }
                let mut entries = Vec::new();
                std::mem::swap(&mut entries, &mut self.balances);
                entries.set(i, entry);
                self.balances = entries;
            },
            None => {
                proof { lemma_view_absent(self.balances@, address@); }
                let entry = BalanceEntry { address: key, amount: amount.duplicate() };
                proof { lemma_view_push(self.balances@, entry); }
                let mut entries = Vec::new();
                std::mem::swap(&mut entries, &mut self.balances);
                entries.push(entry);
                self.balances = entries;
            },
        }
        Ok(())
    }

    /// Takes `amount` from `address`, dropping a balance that falls to zero.
    /// An address that holds nothing is left alone.
    fn decrease_balance(&mut self, address: &str, amount: &Amount) -> (r: Result<(), BalanceError>)
        ensures
            spec_decrease(old(self)@, address@, amount@) matches Ok(m) ==> r is Ok && final(self)@ == m,
            spec_decrease(old(self)@, address@, amount@) matches Err(e) ==> r == Err::<(), BalanceError>(e) && final(self)@ == old(self)@,
            final(self).spec_tapp_id() == old(self).spec_tapp_id(),
    {
        proof { use_type_invariant(&*self); }
        let key = String::from_str(address);
        match self.find(&key) {
            Some(i) => {
                proof { lemma_view_at(self.balances@, i as int); }
                let rest = match self.balances[i].amount.checked_sub(amount) {
                    Some(v) => v,
                    None => return Err(BalanceError::SubError),
                };
                if rest.is_zero() {
                    proof { lemma_view_remove(self.balances@, i as int); }
                    let mut entries = Vec::new();
                    std::mem::swap(&mut entries, &mut self.balances);
                    entries.remove(i);
                    self.balances = entries;
                } else {
                    let entry = BalanceEntry { address: key, amount: rest };
                    proof { lemma_view_update(self.balances@, i as int, entry); }
                    let mut entries = Vec::new();
                    std::mem::swap(&mut entries, &mut self.balances);
                    entries.set(i, entry);
                    self.balances = entries;
                }
            },
            None => {
                proof { lemma_view_absent(self.balances@, address@); }
            },
        }
        Ok(())
    }
}


impl BalanceState {
    /// Runs one operation. A refused operation leaves the ledger as it was.
    pub fn execute(&mut self, operation: &BalanceOperation) -> (r: Result<(), BalanceError>)
        ensures
            spec_execute(old(self)@, *operation) matches Ok(m) ==> r is Ok && final(self)@ == m,
            spec_execute(old(self)@, *operation) matches Err(e) ==> r == Err::<(), BalanceError>(e) && final(self)@ == old(self)@,
            final(self).spec_tapp_id() == old(self).spec_tapp_id(),
    {
        match operation {
            BalanceOperation::Mint(address, amount) => self.increase_balance(address.as_str(), amount),
            BalanceOperation::Burn(address, amount) => self.decrease_balance(address.as_str(), amount),
            BalanceOperation::Transfer(from, to, amount) => {
                match self.decrease_balance(from.as_str(), amount) {
                    Ok(()) => {},
                    Err(e) => return Err(e),
                }
                self.increase_balance(to.as_str(), amount)
            },
        }
    }

    /// Runs the operations in order and stops at the first that is refused;
    /// those before it stay applied.
    pub fn batch_execute(&mut self, operations: Vec<BalanceOperation>) -> (r: Result<(), BalanceError>)
        ensures
            final(self)@ == spec_batch(old(self)@, operations@).0,
            r == spec_batch(old(self)@, operations@).1,
            final(self).spec_tapp_id() == old(self).spec_tapp_id(),
    {
        let mut i: usize = 0;
        assert(operations@.subrange(0, operations@.len() as int) =~= operations@);
        while i < operations.len()
            invariant
                i <= operations@.len(),
                spec_batch(old(self)@, operations@) == spec_batch(self@, operations@.subrange(i as int, operations@.len() as int)),
                self.spec_tapp_id() == old(self).spec_tapp_id(),
            decreases operations@.len() - i,
        {
            let ghost rest = operations@.subrange(i as int, operations@.len() as int);
            assert(rest[0] == operations@[i as int]);
            assert(rest.drop_first() =~= operations@.subrange(i + 1, operations@.len() as int));
            match self.execute(&operations[i]) {
                Ok(()) => {},
                Err(e) => return Err(e),
            }
            i = i + 1;
        }
        assert(operations@.subrange(i as int, operations@.len() as int) =~= Seq::<BalanceOperation>::empty());
        Ok(())
    }
}

impl Default for BalanceState {
    fn default() -> (r: BalanceState)
        ensures
            r@ == Map::<Seq<char>, nat>::empty(),
            r.spec_tapp_id() == 0,
    {
        let r = BalanceState { tapp_id: 0, balances: Vec::new() };
        assert(r@ =~= Map::<Seq<char>, nat>::empty());
        r
    }
}

/// Minting an amount to an address and then burning the same amount from it
/// gives back the ledger one started from, unless that address was recorded
/// with a zero balance (the burn then drops the record).
pub proof fn law_mint_then_burn_restores(m: Map<Seq<char>, nat>, a: Seq<char>, x: nat)
    requires
        !(m.contains_key(a) && m[a] == 0),
    ensures
        spec_decrease(spec_increase(m, a, x), a, x) == Ok::<Map<Seq<char>, nat>, BalanceError>(m),
{
    let m1 = spec_increase(m, a, x);
    if m.contains_key(a) {
        assert(m1.insert(a, (m1[a] - x) as nat) =~= m);
    } else {
        assert(m1.remove(a) =~= m);
    }
}

/// A transfer from an address to itself, of no more than that address holds,
/// leaves the ledger unchanged.
pub proof fn law_self_transfer_is_identity(m: Map<Seq<char>, nat>, a: Seq<char>, x: nat)
    requires
        m.contains_key(a),
        x <= m[a],
    ensures
        spec_decrease(m, a, x) matches Ok(m1) && spec_increase(m1, a, x) == m,
{
    let m1 = spec_decrease(m, a, x)->Ok_0;
    assert(spec_increase(m1, a, x) =~= m);
}

/// A transfer between two different addresses, from one that holds at least
/// the amount, keeps the sum of their balances and touches no other address.
pub proof fn law_transfer_conserves(m: Map<Seq<char>, nat>, f: Seq<char>, t: Seq<char>, x: nat)
    requires
        f != t,
        m.contains_key(f),
        x <= m[f],
    ensures
        spec_decrease(m, f, x) matches Ok(m1) && {
            let m2 = spec_increase(m1, t, x);
            &&& balance_of(m2, f) + balance_of(m2, t) == balance_of(m, f) + balance_of(m, t)
            &&& balance_of(m2, f) == m[f] - x
            &&& balance_of(m2, t) == balance_of(m, t) + x
            &&& forall|a: Seq<char>| a != f && a != t ==> (#[trigger] m2.contains_key(a) == m.contains_key(a) && m2[a] == m[a])
        },
{
}

/// Running a list of operations runs the first and then the rest, as long as
/// the first is accepted; a refused first operation stops the run with the
/// ledger unchanged.
pub proof fn law_batch_runs_in_order(m: Map<Seq<char>, nat>, ops: Seq<BalanceOperation>)
    requires
        ops.len() > 0,
    ensures
        spec_execute(m, ops[0]) matches Ok(m1) ==> spec_batch(m, ops) == spec_batch(m1, ops.drop_first()),
        spec_execute(m, ops[0]) matches Err(e) ==> spec_batch(m, ops) == (m, Err::<(), BalanceError>(e)),
{
}

/// A successful burn never leaves a zero balance recorded for the address,
/// and never takes more than the address held.
pub proof fn law_burn_drops_zero(m: Map<Seq<char>, nat>, a: Seq<char>, x: nat)
    ensures
        spec_decrease(m, a, x) matches Ok(m1) ==> (m1.contains_key(a) ==> m1[a] > 0 || (!m.contains_key(a) && m1 == m)),
        spec_decrease(m, a, x) matches Ok(m1) ==> balance_of(m1, a) + (if m.contains_key(a) { x } else { 0 }) == balance_of(m, a),
        spec_decrease(m, a, x) is Err <==> (m.contains_key(a) && m[a] < x),
{
}

/// Executing a mint adds the amount to the address's balance (zero when it
/// had none) and leaves every other address as it was.
pub proof fn law_execute_mint(m: Map<Seq<char>, nat>, op: BalanceOperation)
    requires
        op is Mint,
    ensures
        op matches BalanceOperation::Mint(a, x) && spec_execute(m, op) matches Ok(m2) && {
            &&& m2.contains_key(a@)
            &&& m2[a@] == (if m.contains_key(a@) { m[a@] } else { 0 }) + x@
            &&& forall|b: Seq<char>| b != a@ ==> (#[trigger] m2.contains_key(b) == m.contains_key(b) && m2[b] == m[b])
        },
{
}

/// Executing a burn of at most what a recorded address holds takes the
/// amount from it, drops it when nothing is left, and leaves every other
/// address as it was; a burn of more is refused with the ledger unchanged.
pub proof fn law_execute_burn(m: Map<Seq<char>, nat>, op: BalanceOperation)
    requires
        op is Burn,
    ensures
        op matches BalanceOperation::Burn(a, x) && (m.contains_key(a@) && x@ <= m[a@] ==> (
            spec_execute(m, op) matches Ok(m2)
            && (if m[a@] == x@ { !m2.contains_key(a@) } else { m2.contains_key(a@) && m2[a@] + x@ == m[a@] })
            && forall|b: Seq<char>| b != a@ ==> (#[trigger] m2.contains_key(b) == m.contains_key(b) && m2[b] == m[b])
        )),
        op matches BalanceOperation::Burn(a, x) && (m.contains_key(a@) && x@ > m[a@] ==>
            spec_execute(m, op) == Err::<Map<Seq<char>, nat>, BalanceError>(BalanceError::SubError)),
        op matches BalanceOperation::Burn(a, x) && (!m.contains_key(a@) ==>
            spec_execute(m, op) == Ok::<Map<Seq<char>, nat>, BalanceError>(m)),
{
}

/// Executing a transfer between two different addresses, from one that
/// holds at least the amount, leaves the sender with its balance less the
/// amount and the recipient with its balance (zero when it had none) plus
/// the amount, keeps the sum of the two, and touches no other address.
pub proof fn law_execute_transfer(m: Map<Seq<char>, nat>, op: BalanceOperation)
    requires
        op matches BalanceOperation::Transfer(f, t, x) && f@ != t@ && m.contains_key(f@) && x@ <= m[f@],
    ensures
        op matches BalanceOperation::Transfer(f, t, x) && spec_execute(m, op) matches Ok(m2) && {
            let old_t: nat = if m.contains_key(t@) { m[t@] } else { 0 };
            let new_f: nat = if m2.contains_key(f@) { m2[f@] } else { 0 };
            &&& m2.contains_key(t@)
            &&& m2[t@] == old_t + x@
            &&& new_f + x@ == m[f@]
            &&& new_f + m2[t@] == m[f@] + old_t
            &&& forall|b: Seq<char>| b != f@ && b != t@ ==> (#[trigger] m2.contains_key(b) == m.contains_key(b) && m2[b] == m[b])
        },
{
}

} // verus!
