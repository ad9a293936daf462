//! A multi-user currency modelled after paper cash. The system tracks
//! individual bills, each with an owner, an amount and a unique serial
//! number. A transfer spends whole bills and creates new ones of lesser or
//! equal total amount; the difference is destroyed, so no separate burn
//! transaction is needed.
//!
//! The circulating bills form a set: inserting a bill that is already
//! present changes nothing. The state keeps them as a duplicate-free vector
//! in insertion order, and two states are equal when they hold the same
//! bills in the same order and agree on the serial counter.

use vstd::prelude::*;

use crate::state_machine::{bump, bump_by, lemma_bump_by_step, StateMachine, User};

verus! {

/// A single bill: an owner who may spend it, the amount it is worth, and a
/// serial number that keeps bills distinguishable.
#[derive(Clone, Copy, Debug, PartialEq, Eq, Structural)]
pub struct Bill {
    pub owner: User,
    pub amount: u64,
    pub serial: u64,
}

/// The abstract value of a [`State`]: the circulating bills in insertion
/// order, and the serial counter for the next created bill.
#[verifier::ext_equal]
pub struct StateView {
    pub bills: Seq<Bill>,
    pub next_serial: u64,
}

/// The state of the cash system: the circulating bills and the next serial
/// number. The bill list never holds the same bill twice.
#[derive(Debug)]
pub struct State {
    bills: Vec<Bill>,
    next_serial: u64,
}

impl View for State {
    type V = StateView;

    closed spec fn view(&self) -> StateView {
        StateView { bills: self.bills@, next_serial: self.next_serial }
    }
}

/// Both components of the abstract state agree.
pub open spec fn state_unchanged(s: State, r: State) -> bool {
    r@.bills == s@.bills && r@.next_serial == s@.next_serial
}

/// Set-like insertion: a bill that is already present is not added again.
pub open spec fn insert_bill(bills: Seq<Bill>, b: Bill) -> Seq<Bill> {
    if bills.contains(b) {
        bills
    } else {
        bills.push(b)
    }
}

/// Insert each element of `added`, left to right.
pub open spec fn insert_all(bills: Seq<Bill>, added: Seq<Bill>) -> Seq<Bill>
    decreases added.len(),
{
    if added.len() == 0 {
        bills
    } else {
        insert_bill(insert_all(bills, added.drop_last()), added.last())
    }
}

/// Remove each element of `removed`, left to right; a bill that is absent
/// leaves the list unchanged.
pub open spec fn remove_all(bills: Seq<Bill>, removed: Seq<Bill>) -> Seq<Bill>
    decreases removed.len(),
{
    if removed.len() == 0 {
        bills
    } else {
        remove_all(bills, removed.drop_last()).remove_value(removed.last())
    }
}

/// No two bills in the sequence share a serial number.
pub open spec fn unique_serials(bills: Seq<Bill>) -> bool {
    forall|i: int, j: int|
        0 <= i < j < bills.len() ==> (#[trigger] bills[i]).serial != (#[trigger] bills[j]).serial
}

/// The total face value of a sequence of bills, as an unbounded integer.
pub open spec fn sum_amounts(bills: Seq<Bill>) -> int
    decreases bills.len(),
{
    if bills.len() == 0 {
        0
    } else {
        sum_amounts(bills.drop_last()) + bills.last().amount
    }
}

/// The sum over a prefix never exceeds the sum over the whole sequence.
proof fn lemma_sum_amounts_prefix(bills: Seq<Bill>, i: int)
    requires
        0 <= i <= bills.len(),
    ensures
        sum_amounts(bills.subrange(0, i)) <= sum_amounts(bills),
    decreases bills.len() - i,
{
    if i == bills.len() {
        assert(bills.subrange(0, i) =~= bills);
    } else {
        assert(bills.subrange(0, i + 1).drop_last() =~= bills.subrange(0, i));
        lemma_sum_amounts_prefix(bills, i + 1);
    }
}

/// When a transfer is accepted: no received bill uses the reserved top
/// serial, all serials among spent and received bills are distinct, no
/// received bill is worthless, something is spent, every spent bill is in
/// circulation, neither total overflows, and no value is created.
pub open spec fn transfer_ok(bills: Seq<Bill>, spends: Seq<Bill>, receives: Seq<Bill>) -> bool {
    &&& forall|i: int| 0 <= i < receives.len() ==> (#[trigger] receives[i]).serial != u64::MAX
    &&& unique_serials(spends + receives)
    &&& forall|i: int| 0 <= i < receives.len() ==> (#[trigger] receives[i]).amount != 0
    &&& spends.len() > 0
    &&& forall|i: int| 0 <= i < spends.len() ==> bills.contains(#[trigger] spends[i])
    &&& sum_amounts(spends) <= u64::MAX
    &&& sum_amounts(receives) <= u64::MAX
    &&& sum_amounts(receives) <= sum_amounts(spends)
}

fn copy_bills(bills: &Vec<Bill>) -> (r: Vec<Bill>)
    ensures
        r@ == bills@,
{
    let mut r: Vec<Bill> = Vec::new();
    let mut i: usize = 0;
    while i < bills.len()
        invariant
            i <= bills@.len(),
            r@ == bills@.subrange(0, i as int),
        decreases bills@.len() - i,
    {
        r.push(bills[i]);
        proof {
            assert(r@ =~= bills@.subrange(0, i as int + 1));
        }
        i = i + 1;
    }
    proof {
        assert(bills@.subrange(0, bills@.len() as int) =~= bills@);
    }
    r
}

fn vec_contains_bill(bills: &Vec<Bill>, b: Bill) -> (r: bool)
    ensures
        r == bills@.contains(b),
{
    let mut i: usize = 0;
    while i < bills.len()
        invariant
            i <= bills@.len(),
            forall|j: int| 0 <= j < i ==> bills@[j] != b,
        decreases bills@.len() - i,
    {
        if bills[i] == b {
            return true;
        }
        i = i + 1;
    }
    false
}

/// Remove the first occurrence of `b`, if any, as removal from a set does.
fn remove_bill(bills: &mut Vec<Bill>, b: Bill)
    ensures
        final(bills)@ == old(bills)@.remove_value(b),
{
    let ghost orig = old(bills)@;
    let mut i: usize = 0;
    while i < bills.len()
        invariant
            orig == old(bills)@,
            bills@ == orig,
            i <= orig.len(),
            forall|j: int| 0 <= j < i ==> orig[j] != b,
        decreases orig.len() - i,
    {
        if bills[i] == b {
            bills.remove(i);
            proof {
                orig.index_of_first_ensures(b);
                assert(orig.contains(b)) by {
                    assert(orig[i as int] == b);
                }
                match orig.index_of_first(b) {
                    Some(fi) => {
                        assert(fi == i as int);
                        assert(orig.remove_value(b) == orig.remove(i as int));
                    },
                    None => {
                        assert(false);
                    },
                }
            }
            return ;
        }
        i = i + 1;
    }
    proof {
        orig.index_of_first_ensures(b);
        assert(!orig.contains(b));
    }
}

/// Does any bill use the reserved serial `u64::MAX`?
fn has_serial_max(bills: &[Bill]) -> (r: bool)
    ensures
        r <==> exists|i: int| 0 <= i < bills@.len() && (#[trigger] bills@[i]).serial == u64::MAX,
{
    let mut i: usize = 0;
    while i < bills.len()
        invariant
            i <= bills@.len(),
            forall|j: int| 0 <= j < i ==> (#[trigger] bills@[j]).serial != u64::MAX,
        decreases bills@.len() - i,
    {
        if bills[i].serial == u64::MAX {
            return true;
        }
        i = i + 1;
    }
    false
}

/// Is any bill worth nothing?
fn has_zero_amount(bills: &[Bill]) -> (r: bool)
    ensures
        r <==> exists|i: int| 0 <= i < bills@.len() && (#[trigger] bills@[i]).amount == 0,
{
    let mut i: usize = 0;
    while i < bills.len()
        invariant
            i <= bills@.len(),
            forall|j: int| 0 <= j < i ==> (#[trigger] bills@[j]).amount != 0,
        decreases bills@.len() - i,
    {
        if bills[i].amount == 0 {
            return true;
        }
        i = i + 1;
    }
    false
}

/// Is every one of `spends` in circulation?
fn all_in_circulation(bills: &Vec<Bill>, spends: &[Bill]) -> (r: bool)
    ensures
        r <==> forall|i: int| 0 <= i < spends@.len() ==> bills@.contains(#[trigger] spends@[i]),
{
    let mut i: usize = 0;
    while i < spends.len()
        invariant
            i <= spends@.len(),
            forall|j: int| 0 <= j < i ==> bills@.contains(#[trigger] spends@[j]),
        decreases spends@.len() - i,
    {
        if !vec_contains_bill(bills, spends[i]) {
            return false;
        }
        i = i + 1;
    }
    true
}

/// Sum the amounts, or report that the total does not fit in a `u64`.
fn sum_checked(bills: &[Bill]) -> (r: Option<u64>)
    ensures
        match r {
            Some(v) => v == sum_amounts(bills@),
            None => sum_amounts(bills@) > u64::MAX,
        },
{
    let mut acc: u64 = 0;
    let mut i: usize = 0;
    while i < bills.len()
        invariant
            i <= bills@.len(),
            acc == sum_amounts(bills@.subrange(0, i as int)),
        decreases bills@.len() - i,
    {
        proof {
            assert(bills@.subrange(0, i as int + 1).drop_last() =~= bills@.subrange(0, i as int));
        }
        match acc.checked_add(bills[i].amount) {
            Some(next) => {
                acc = next;
            },
            None => {
                proof {
                    lemma_sum_amounts_prefix(bills@, i as int + 1);
                }
                return None;
            },
        }
        i = i + 1;
    }
    proof {
        assert(bills@.subrange(0, bills@.len() as int) =~= bills@);
    }
    Some(acc)
}

fn distinct_within(bills: &[Bill]) -> (r: bool)
    ensures
        r == unique_serials(bills@),
{
    let n = bills.len();
    let mut i: usize = 0;
    while i < n
        invariant
            n == bills@.len(),
            i <= n,
            forall|p: int, q: int|
                0 <= p < q < bills@.len() && p < i ==> (#[trigger] bills@[p]).serial != (
                #[trigger] bills@[q]).serial,
        decreases n - i,
    {
        let mut j: usize = i + 1;
        while j < n
            invariant
                n == bills@.len(),
                i < n,
                i < j <= n,
                forall|q: int|
                    i < q < j ==> (#[trigger] bills@[q]).serial != bills@[i as int].serial,
            decreases n - j,
        {
            if bills[i].serial == bills[j].serial {
                proof {
                    assert(!unique_serials(bills@)) by {
                        assert(bills@[i as int].serial == bills@[j as int].serial);
                    }
                }
                return false;
            }
            j = j + 1;
        }
        i = i + 1;
    }
    true
}

fn distinct_across(a: &[Bill], b: &[Bill]) -> (r: bool)
    ensures
        r <==> forall|i: int, j: int|
            0 <= i < a@.len() && 0 <= j < b@.len() ==> (#[trigger] a@[i]).serial != (
            #[trigger] b@[j]).serial,
{
    let mut i: usize = 0;
    while i < a.len()
        invariant
            i <= a@.len(),
            forall|p: int, q: int|
                0 <= p < i && 0 <= q < b@.len() ==> (#[trigger] a@[p]).serial != (
                #[trigger] b@[q]).serial,
        decreases a@.len() - i,
    {
        let mut j: usize = 0;
        while j < b.len()
            invariant
                i < a@.len(),
                j <= b@.len(),
                forall|q: int| 0 <= q < j ==> a@[i as int].serial != (#[trigger] b@[q]).serial,
            decreases b@.len() - j,
        {
            if a[i].serial == b[j].serial {
                return false;
            }
            j = j + 1;
        }
        i = i + 1;
    }
    true
}

/// Serial distinctness over a concatenation, split into its three parts.
proof fn lemma_unique_concat(a: Seq<Bill>, b: Seq<Bill>)
    ensures
        unique_serials(a + b) <==> (unique_serials(a) && unique_serials(b) && (forall|i: int, j: int|
            0 <= i < a.len() && 0 <= j < b.len() ==> (#[trigger] a[i]).serial != (
            #[trigger] b[j]).serial)),
{
    let c = a + b;
    if unique_serials(c) {
        assert forall|i: int, j: int| 0 <= i < j < a.len() implies (#[trigger] a[i]).serial != (
        #[trigger] a[j]).serial by {
            assert(c[i] == a[i]);
            assert(c[j] == a[j]);
        }
        assert forall|i: int, j: int| 0 <= i < j < b.len() implies (#[trigger] b[i]).serial != (
        #[trigger] b[j]).serial by {
            assert(c[a.len() + i] == b[i]);
            assert(c[a.len() + j] == b[j]);
        }
        assert forall|i: int, j: int|
            0 <= i < a.len() && 0 <= j < b.len() implies (#[trigger] a[i]).serial != (
        #[trigger] b[j]).serial by {
            assert(c[i] == a[i]);
            assert(c[a.len() + j] == b[j]);
        }
    }
    if unique_serials(a) && unique_serials(b) && (forall|i: int, j: int|
        0 <= i < a.len() && 0 <= j < b.len() ==> (#[trigger] a[i]).serial != (
        #[trigger] b[j]).serial) {
        assert forall|i: int, j: int| 0 <= i < j < c.len() implies (#[trigger] c[i]).serial != (
        #[trigger] c[j]).serial by {
            if j < a.len() {
                assert(c[i] == a[i]);
                assert(c[j] == a[j]);
            } else if i < a.len() {
                assert(c[i] == a[i]);
                assert(c[j] == b[j - a.len()]);
            } else {
                assert(c[i] == b[i - a.len()]);
                assert(c[j] == b[j - a.len()]);
            }
        }
    }
}

/// Are all serials distinct, both within and across the two lists?
pub fn has_unique_serials(sends: &[Bill], receives: &[Bill]) -> (r: bool)
    ensures
        r == unique_serials(sends@ + receives@),
{
    proof {
        lemma_unique_concat(sends@, receives@);
    }
    distinct_within(sends) && distinct_within(receives) && distinct_across(sends, receives)
}

/// Does either total exceed what a `u64` can hold?
pub fn has_overflow(spends: &[Bill], receives: &[Bill]) -> (r: bool)
    ensures
        r <==> (sum_amounts(spends@) > u64::MAX || sum_amounts(receives@) > u64::MAX),
{
    let spend_sum = sum_checked(spends);
    let receive_sum = sum_checked(receives);
    spend_sum.is_none() || receive_sum.is_none()
}

impl State {
    /// An empty state: no bills, serial counter at zero.
    pub fn new() -> (s: Self)
        ensures
            s@.bills == Seq::<Bill>::empty(),
            s@.next_serial == 0,
    {
        State { bills: Vec::new(), next_serial: 0 }
    }

    /// Build a state by inserting the given bills in order: `new` followed by
    /// one `add_bill` per element, so the serial counter ends at the number
    /// of elements given.
    pub fn from_bills(bills: Vec<Bill>) -> (s: Self)
        ensures
            s@.bills == insert_all(Seq::<Bill>::empty(), bills@),
            s@.next_serial == bump_by(0, bills@.len()),
    {
        let mut s = State::new();
        let mut i: usize = 0;
        while i < bills.len()
            invariant
                i <= bills@.len(),
                s@.bills == insert_all(Seq::<Bill>::empty(), bills@.subrange(0, i as int)),
                s@.next_serial == bump_by(0, i as nat),
            decreases bills@.len() - i,
        {
            s.add_bill(bills[i]);
            proof {
                assert(bills@.subrange(0, i as int + 1).drop_last() =~= bills@.subrange(
                    0,
                    i as int,
                ));
                lemma_bump_by_step(0, i as nat);
            }
            i = i + 1;
        }
        proof {
            assert(bills@.subrange(0, bills@.len() as int) =~= bills@);
        }
        s
    }

    pub fn set_serial(&mut self, serial: u64)
        ensures
            final(self)@.bills == old(self)@.bills,
            final(self)@.next_serial == serial,
    {
        self.next_serial = serial;
    }

    pub fn next_serial(&self) -> (r: u64)
        ensures
            r == self@.next_serial,
    {
        self.next_serial
    }

    /// Advance the serial counter, saturating at `u64::MAX`.
    fn increment_serial(&mut self)
        ensures
            final(self)@.bills == old(self)@.bills,
            final(self)@.next_serial == bump(old(self)@.next_serial),
    {
        if self.next_serial != u64::MAX {
            self.next_serial = self.next_serial + 1;
        }
    }

    /// Insert a bill (a no-op when it is already circulating) and advance the
    /// serial counter.
    fn add_bill(&mut self, elem: Bill)
        ensures
            final(self)@.bills == insert_bill(old(self)@.bills, elem),
            final(self)@.next_serial == bump(old(self)@.next_serial),
    {
        if !vec_contains_bill(&self.bills, elem) {
            self.bills.push(elem);
        }
        self.increment_serial();
    }
}

impl Clone for State {
    fn clone(&self) -> (res: Self)
        ensures
            res@ == self@,
    {
        State { bills: copy_bills(&self.bills), next_serial: self.next_serial }
    }
}

impl PartialEq for State {
    fn eq(&self, other: &State) -> (r: bool) {
        if self.next_serial != other.next_serial {
            return false;
        }
        if self.bills.len() != other.bills.len() {
            return false;
        }
        let mut i: usize = 0;
        while i < self.bills.len()
            invariant
                i <= self.bills@.len(),
                self.bills@.len() == other.bills@.len(),
                forall|j: int| 0 <= j < i ==> self.bills@[j] == other.bills@[j],
            decreases self.bills@.len() - i,
        {
            if self.bills[i] != other.bills[i] {
                return false;
            }
            i = i + 1;
        }
        proof {
            assert(self.bills@ =~= other.bills@);
        }
        true
    }
}

impl vstd::std_specs::cmp::PartialEqSpecImpl for State {
    open spec fn obeys_eq_spec() -> bool {
        true
    }

    open spec fn eq_spec(&self, other: &State) -> bool {
        self@.bills == other@.bills && self@.next_serial == other@.next_serial
    }
}

/// The transitions of the cash system.
pub enum CashTransaction {
    /// Mint a single new bill owned by the minter.
    Mint { minter: User, amount: u64 },
    /// Spend some bills and create new ones. The spent bills need not share
    /// an owner, nor the received ones. The total received must not exceed
    /// the total spent; the difference is destroyed.
    Transfer { spends: Vec<Bill>, receives: Vec<Bill> },
}

/// The cash system as a state machine. Every rejected transaction returns
/// the starting state unchanged.
pub struct DigitalCashSystem;

impl StateMachine for DigitalCashSystem {
    type State = State;

    type Transition = CashTransaction;

    open spec fn next_rel(s: State, t: CashTransaction, r: State) -> bool {
        match t {
            CashTransaction::Mint { minter, amount } => {
                if amount == 0 {
                    state_unchanged(s, r)
                } else {
                    &&& r@.bills == insert_bill(
                        s@.bills,
                        Bill { owner: minter, amount: amount, serial: s@.next_serial },
                    )
                    &&& r@.next_serial == bump(s@.next_serial)
                }
            },
            CashTransaction::Transfer { spends, receives } => {
                if transfer_ok(s@.bills, spends@, receives@) {
                    &&& r@.bills == insert_all(remove_all(s@.bills, spends@), receives@)
                    &&& r@.next_serial == bump_by(s@.next_serial, receives@.len())
                } else {
                    state_unchanged(s, r)
                }
            },
        }
    }

    fn next_state(starting_state: &State, t: &CashTransaction) -> (new_state: State) {
        match t {
            CashTransaction::Mint { minter, amount } => {
                if *amount == 0 {
                    return starting_state.clone();
                }
                let mut new_state = starting_state.clone();
                let serial = new_state.next_serial();
                new_state.add_bill(Bill { owner: *minter, amount: *amount, serial });
                new_state
            },
            CashTransaction::Transfer { spends, receives } => {
                // a received bill may never use the reserved top serial
                if has_serial_max(receives.as_slice()) {
                    return starting_state.clone();
                }
                // serials must be distinct across the whole transaction
                if !has_unique_serials(spends.as_slice(), receives.as_slice()) {
                    return starting_state.clone();
                }
                // no worthless bills may be created
                if has_zero_amount(receives.as_slice()) {
                    return starting_state.clone();
                }
                // something must be spent
                if spends.len() == 0 {
                    return starting_state.clone();
                }
                // only circulating bills can be spent
                if !all_in_circulation(&starting_state.bills, spends.as_slice()) {
                    return starting_state.clone();
                }
                let spend_sum = sum_checked(spends.as_slice());
                let receive_sum = sum_checked(receives.as_slice());
                let (spent, received) = match (spend_sum, receive_sum) {
                    (Some(spent), Some(received)) => (spent, received),
                    _ => {
                        return starting_state.clone();
                    },
                };
                // no value may be created
                if spent < received {
                    return starting_state.clone();
                }
                let mut new_state = starting_state.clone();
                let mut i: usize = 0;
                while i < spends.len()
                    invariant
                        i <= spends@.len(),
                        new_state.bills@ == remove_all(
                            starting_state@.bills,
                            spends@.subrange(0, i as int),
                        ),
                        new_state.next_serial == starting_state@.next_serial,
                    decreases spends@.len() - i,
                {
                    remove_bill(&mut new_state.bills, spends[i]);
                    proof {
                        assert(spends@.subrange(0, i as int + 1).drop_last() =~= spends@.subrange(
                            0,
                            i as int,
                        ));
                    }
                    i = i + 1;
                }
                proof {
                    assert(spends@.subrange(0, spends@.len() as int) =~= spends@);
                }
                let ghost removed = remove_all(starting_state@.bills, spends@);
                let mut j: usize = 0;
                while j < receives.len()
                    invariant
                        j <= receives@.len(),
                        new_state.bills@ == insert_all(removed, receives@.subrange(0, j as int)),
                        new_state.next_serial == bump_by(starting_state@.next_serial, j as nat),
                        removed == remove_all(starting_state@.bills, spends@),
                    decreases receives@.len() - j,
                {
                    new_state.add_bill(receives[j]);
                    proof {
                        assert(receives@.subrange(0, j as int + 1).drop_last()
                            =~= receives@.subrange(0, j as int));
                        lemma_bump_by_step(starting_state@.next_serial, j as nat);
                    }
                    j = j + 1;
                }
                proof {
                    assert(receives@.subrange(0, receives@.len() as int) =~= receives@);
                }
                new_state
            },
        }
    }
}

} // verus!
