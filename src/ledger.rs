use vstd::prelude::*;

use crate::account::AccountId;

verus! {

/// Why an operation on the ledger was refused. A refused operation leaves
/// the ledger exactly as it was.
#[derive(Clone, Copy, Debug, PartialEq, Eq, Structural)]
pub enum PayrollError {
    /// The caller is not the owner.
    Unauthorized,
    /// A salary of zero was offered.
    InvalidSalary,
    /// The employee has no stored salary.
    EmployeeNotFound,
    /// The amount asked for exceeds the budget.
    InsufficientBudget,
    /// The host could not carry out the transfer.
    TransferFailed,
}

/// Notification: an employee was registered, or their salary changed.
#[derive(Clone, Copy, Debug, PartialEq, Eq)]
pub struct EmployeeAdded {
    pub employee: AccountId,
    pub salary: u128,
}

/// Notification: a salary was transferred to an employee.
#[derive(Clone, Copy, Debug, PartialEq, Eq)]
pub struct SalaryPaid {
    pub employee: AccountId,
    pub amount: u128,
}

/// A transfer that the ledger has approved and asks the host to make.
/// Only the ledger creates one; the host reports its outcome to
/// [`Payroll::settle`].
#[derive(Clone, Copy, Debug, PartialEq, Eq)]
pub struct Payment {
    to: AccountId,
    amount: u128,
    salary: bool,
}

impl Payment {
    /// The identity that receives the value.
    pub closed spec fn payee(self) -> Seq<u8> {
        self.to@
    }

    /// The value to transfer.
    pub closed spec fn value(self) -> u128 {
        self.amount
    }

    /// Whether this pays a salary (rather than a withdrawal by the owner).
    pub closed spec fn pays_salary(self) -> bool {
        self.salary
    }

    /// The identity that receives the value.
    pub fn to(&self) -> (r: AccountId)
        ensures
            r@ == self.payee(),
    {
        self.to
    }

    /// The value to transfer.
    pub fn amount(&self) -> (r: u128)
        ensures
            r == self.value(),
    {
        self.amount
    }

    /// Whether this pays a salary.
    pub fn is_salary(&self) -> (r: bool)
        ensures
            r == self.pays_salary(),
    {
        self.salary
    }
}

/// The salary that a read reports for `e`: the stored amount, or 0 when
/// none is stored.
pub open spec fn salary_in(salaries: Map<Seq<u8>, u128>, e: Seq<u8>) -> u128 {
    if salaries.contains_key(e) {
        salaries[e]
    } else {
        0
    }
}

/// `a + b`, clamped to the largest `u128`.
pub open spec fn saturating_sum(a: u128, b: u128) -> u128 {
    if a + b > u128::MAX {
        u128::MAX
    } else {
        (a + b) as u128
    }
}

/// The salary table agrees with its model: keys are unique, each entry is
/// in the map with its amount, each key of the map has an entry, and every
/// amount is positive.
spec fn table_wf(entries: Seq<(AccountId, u128)>, salaries: Map<Seq<u8>, u128>) -> bool {
    &&& forall|i: int, j: int| 0 <= i < j < entries.len() ==> entries[i].0@ != entries[j].0@
    &&& forall|i: int|
        0 <= i < entries.len() ==> {
            &&& #[trigger] salaries.contains_key(entries[i].0@)
            &&& salaries[entries[i].0@] == entries[i].1
        }
    &&& forall|k: Seq<u8>|
        #[trigger] salaries.contains_key(k) ==> exists|i: int|
            0 <= i < entries.len() && entries[i].0@ == k
    &&& forall|k: Seq<u8>| #[trigger] salaries.contains_key(k) ==> salaries[k] > 0
}

/// The payroll ledger.
pub struct Payroll {
    owner: AccountId,
    entries: Vec<(AccountId, u128)>,
    budget: u128,
    salaries: Ghost<Map<Seq<u8>, u128>>,
    deposited: Ghost<nat>,
    disbursed: Ghost<nat>,
}

impl Payroll {
    /// The administrator's identity.
    pub closed spec fn owner(self) -> Seq<u8> {
        self.owner@
    }

    /// The stored salaries, by employee identity.
    pub closed spec fn salaries(self) -> Map<Seq<u8>, u128> {
        self.salaries@
    }

    /// The value available for disbursement.
    pub closed spec fn budget(self) -> u128 {
        self.budget
    }

    /// The total value ever deposited.
    pub closed spec fn deposited(self) -> nat {
        self.deposited@
    }

    /// The total value ever paid out as salary or withdrawn.
    pub closed spec fn disbursed(self) -> nat {
        self.disbursed@
    }

    /// The ledger's invariant: the stored entries and the salary map agree,
    /// and the budget is covered by what was deposited and not disbursed.
    pub closed spec fn wf(self) -> bool {
        &&& table_wf(self.entries@, self.salaries@)
        &&& self.budget + self.disbursed@ <= self.deposited@
    }

    /// Every stored salary is positive.
    pub proof fn lemma_salaries_positive(self, e: Seq<u8>)
        requires
            self.wf(),
            self.salaries().contains_key(e),
        ensures
            self.salaries()[e] > 0,
    {
    }

    /// The budget never exceeds the total deposited minus the total paid
    /// out or withdrawn.
    pub proof fn lemma_budget_covered(self)
        requires
            self.wf(),
        ensures
            self.budget() + self.disbursed() <= self.deposited(),
            self.disbursed() <= self.deposited(),
    {
    }

    /// A new ledger owned by `caller`, with no employees and an empty budget.
    pub fn new(caller: AccountId) -> (r: Payroll)
        ensures
            r.wf(),
            r.owner() == caller@,
            r.salaries() == Map::<Seq<u8>, u128>::empty(),
            r.budget() == 0,
            r.deposited() == 0,
            r.disbursed() == 0,
    {
        Payroll {
            owner: caller,
            entries: Vec::new(),
            budget: 0,
            salaries: Ghost(Map::empty()),
            deposited: Ghost(0),
            disbursed: Ghost(0),
        }
    }

    /// The index of the entry for `e`, if there is one.
    fn find(&self, e: &AccountId) -> (r: Option<usize>)
        ensures
            match r {
                Some(i) => i < self.entries@.len() && self.entries@[i as int].0@ == e@,
                None => forall|i: int|
                    0 <= i < self.entries@.len() ==> self.entries@[i].0@ != e@,
            },
    {
        let mut i: usize = 0;
        while i < self.entries.len()
            invariant
                i <= self.entries@.len(),
                forall|j: int| 0 <= j < i ==> self.entries@[j].0@ != e@,
            decreases self.entries@.len() - i,
        {
            if self.entries[i].0.same(e) {
                return Some(i);
            }
            i = i + 1;
        }
        None
    }

    /// The stored salary of `e`, if there is one.
    fn lookup(&self, e: &AccountId) -> (r: Option<u128>)
        requires
            self.wf(),
        ensures
            r == (if self.salaries().contains_key(e@) {
                Some(self.salaries()[e@])
            } else {
                None::<u128>
            }),
    {
        match self.find(e) {
            Some(i) => {
                assert(self.salaries@.contains_key(self.entries@[i as int].0@));
                Some(self.entries[i].1)
            },
            None => {
                proof {
                    if self.salaries@.contains_key(e@) {
                        let k = e@;
                        assert(exists|i: int|
                            0 <= i < self.entries@.len() && self.entries@[i].0@ == k);
                    }
                }
                None
            },
        }
    }

    /// Registers `employee` with `salary`, or changes their salary.
    /// Only the owner may do so, and the salary must be positive.
    pub fn add_employee(&mut self, caller: AccountId, employee: AccountId, salary: u128) -> (r:
        Result<EmployeeAdded, PayrollError>)
        requires
            old(self).wf(),
        ensures
            final(self).wf(),
            r is Ok <==> (caller@ == old(self).owner() && salary > 0),
            match r {
                Ok(ev) => {
                    &&& ev.employee@ == employee@
                    &&& ev.salary == salary
                    &&& final(self).salaries() == old(self).salaries().insert(employee@, salary)
                    &&& final(self).owner() == old(self).owner()
                    &&& final(self).budget() == old(self).budget()
                    &&& final(self).deposited() == old(self).deposited()
                    &&& final(self).disbursed() == old(self).disbursed()
                },
                Err(err) => {
                    &&& *final(self) == *old(self)
                    &&& err == (if caller@ != old(self).owner() {
                        PayrollError::Unauthorized
                    } else {
                        PayrollError::InvalidSalary
                    })
                },
            },
    {
        if !caller.same(&self.owner) {
            return Err(PayrollError::Unauthorized);
        }
        if salary == 0 {
            return Err(PayrollError::InvalidSalary);
        }
        let ghost before = *self;
        let ghost mut at: int = 0;
        match self.find(&employee) {
            Some(i) => {
                self.entries.set(i, (employee, salary));
                proof {
                    at = i as int;
                }
            },
            None => {
                self.entries.push((employee, salary));
                proof {
                    at = self.entries@.len() - 1;
                }
            },
        }
        self.salaries = Ghost(self.salaries@.insert(employee@, salary));
        assert forall|k: Seq<u8>| #[trigger] self.salaries@.contains_key(k) implies exists|i: int|
            0 <= i < self.entries@.len() && self.entries@[i].0@ == k by {
            if k != employee@ {
                assert(before.salaries@.contains_key(k));
                let j = choose|j: int|
                    0 <= j < before.entries@.len() && before.entries@[j].0@ == k;
                assert(self.entries@[j].0@ == k);
            } else {
                assert(self.entries@[at].0@ == k);
            }
        }
        Ok(EmployeeAdded { employee, salary })
    }

    /// Deletes `employee`'s salary, if one is stored. Only the owner may do so.
    pub fn remove_employee(&mut self, caller: AccountId, employee: AccountId) -> (r: Result<
        (),
        PayrollError,
    >)
        requires
            old(self).wf(),
        ensures
            final(self).wf(),
            r is Ok <==> caller@ == old(self).owner(),
            match r {
                Ok(_) => {
                    &&& final(self).salaries() == old(self).salaries().remove(employee@)
                    &&& final(self).owner() == old(self).owner()
                    &&& final(self).budget() == old(self).budget()
                    &&& final(self).deposited() == old(self).deposited()
                    &&& final(self).disbursed() == old(self).disbursed()
                },
                Err(err) => *final(self) == *old(self) && err == PayrollError::Unauthorized,
            },
    {
        if !caller.same(&self.owner) {
            return Err(PayrollError::Unauthorized);
        }
        match self.find(&employee) {
            Some(i) => {
                let ghost before = *self;
                self.entries.remove(i);
                self.salaries = Ghost(self.salaries@.remove(employee@));
                assert forall|k: Seq<u8>| #[trigger] self.salaries@.contains_key(k) implies exists|
                    j: int,
                | 0 <= j < self.entries@.len() && self.entries@[j].0@ == k by {
                    assert(before.salaries@.contains_key(k));
                    let j = choose|j: int|
                        0 <= j < before.entries@.len() && before.entries@[j].0@ == k;
                    if j < i {
                        assert(self.entries@[j].0@ == k);
                    } else {
                        assert(j != i);
                        assert(self.entries@[j - 1].0@ == k);
                    }
                }
            },
            None => {
                assert(!self.salaries@.contains_key(employee@));
                assert(self.salaries@.remove(employee@) =~= self.salaries@);
            },
        }
        Ok(())
    }

    /// Adds the value attached to a call to the budget, clamping at the
    /// largest representable amount. Anyone may deposit.
    pub fn deposit(&mut self, amount: u128)
        requires
            old(self).wf(),
        ensures
            final(self).wf(),
            final(self).budget() == saturating_sum(old(self).budget(), amount),
            final(self).deposited() == old(self).deposited() + amount,
            final(self).salaries() == old(self).salaries(),
            final(self).owner() == old(self).owner(),
            final(self).disbursed() == old(self).disbursed(),
    {
        self.budget = self.budget.saturating_add(amount);
        self.deposited = Ghost((self.deposited@ + amount) as nat);
    }

    /// Approves paying `employee` their salary. Only the owner may do so; the
    /// employee must have a stored salary, and the budget must cover it. The
    /// ledger changes only once the host reports the transfer to `settle`.
    pub fn pay_salary(&self, caller: AccountId, employee: AccountId) -> (r: Result<
        Payment,
        PayrollError,
    >)
        requires
            self.wf(),
        ensures
            r is Ok <==> {
                &&& caller@ == self.owner()
                &&& salary_in(self.salaries(), employee@) > 0
                &&& salary_in(self.salaries(), employee@) <= self.budget()
            },
            match r {
                Ok(p) => {
                    &&& p.payee() == employee@
                    &&& p.value() == salary_in(self.salaries(), employee@)
                    &&& p.pays_salary()
                },
                Err(err) => err == (if caller@ != self.owner() {
                    PayrollError::Unauthorized
                } else if salary_in(self.salaries(), employee@) == 0 {
                    PayrollError::EmployeeNotFound
                } else {
                    PayrollError::InsufficientBudget
                }),
            },
    {
        if !caller.same(&self.owner) {
            return Err(PayrollError::Unauthorized);
        }
        let salary = match self.lookup(&employee) {
            Some(s) => s,
            None => {
                return Err(PayrollError::EmployeeNotFound);
            },
        };
        if salary == 0 {
            return Err(PayrollError::EmployeeNotFound);
        }
        if self.budget < salary {
            return Err(PayrollError::InsufficientBudget);
        }
        Ok(Payment { to: employee, amount: salary, salary: true })
    }

    /// Approves a withdrawal of `amount` to the owner. Only the owner may do
    /// so, and the budget must cover it. The ledger changes only once the
    /// host reports the transfer to `settle`.
    pub fn withdraw(&self, caller: AccountId, amount: u128) -> (r: Result<Payment, PayrollError>)
        requires
            self.wf(),
        ensures
            r is Ok <==> (caller@ == self.owner() && amount <= self.budget()),
            match r {
                Ok(p) => {
                    &&& p.payee() == self.owner()
                    &&& p.value() == amount
                    &&& !p.pays_salary()
                },
                Err(err) => err == (if caller@ != self.owner() {
                    PayrollError::Unauthorized
                } else {
                    PayrollError::InsufficientBudget
                }),
            },
    {
        if !caller.same(&self.owner) {
            return Err(PayrollError::Unauthorized);
        }
        if amount > self.budget {
            return Err(PayrollError::InsufficientBudget);
        }
        Ok(Payment { to: self.owner, amount, salary: false })
    }

    /// Records the outcome of an approved transfer. When the host reports
    /// failure, nothing changes. When it reports success, the amount leaves
    /// the budget; a salary payment then yields its notification.
    pub fn settle(&mut self, payment: Payment, transferred: bool) -> (r: Result<
        Option<SalaryPaid>,
        PayrollError,
    >)
        requires
            old(self).wf(),
        ensures
            final(self).wf(),
            r is Ok <==> (transferred && payment.value() <= old(self).budget()),
            match r {
                Ok(ev) => {
                    &&& final(self).budget() == old(self).budget() - payment.value()
                    &&& final(self).disbursed() == old(self).disbursed() + payment.value()
                    &&& final(self).deposited() == old(self).deposited()
                    &&& final(self).salaries() == old(self).salaries()
                    &&& final(self).owner() == old(self).owner()
                    &&& ev is Some <==> payment.pays_salary()
                    &&& ev matches Some(paid) ==> paid.employee@ == payment.payee()
                        && paid.amount == payment.value()
                },
                Err(err) => {
                    &&& *final(self) == *old(self)
                    &&& err == (if !transferred {
                        PayrollError::TransferFailed
                    } else {
                        PayrollError::InsufficientBudget
                    })
                },
            },
    {
        if !transferred {
            return Err(PayrollError::TransferFailed);
        }
        if payment.amount > self.budget {
            return Err(PayrollError::InsufficientBudget);
        }
        self.budget = self.budget.saturating_sub(payment.amount);
        self.disbursed = Ghost((self.disbursed@ + payment.amount) as nat);
        if payment.salary {
            Ok(Some(SalaryPaid { employee: payment.to, amount: payment.amount }))
        } else {
            Ok(None)
        }
    }

    /// The salary stored for `employee`, or 0 when there is none.
    pub fn get_salary(&self, employee: AccountId) -> (r: u128)
        requires
            self.wf(),
        ensures
            r == salary_in(self.salaries(), employee@),
    {
        match self.lookup(&employee) {
            Some(s) => s,
            None => 0,
        }
    }

    /// The value available for disbursement.
    pub fn get_budget(&self) -> (r: u128)
        ensures
            r == self.budget(),
    {
        self.budget
    }

    /// The administrator's identity.
    pub fn get_owner(&self) -> (r: AccountId)
        ensures
            r@ == self.owner(),
    {
        self.owner
    }
}

} // verus!
