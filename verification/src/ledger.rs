//! The resource ledger: runtime capacity, per-tenant soft quotas, what
//! reservations add up to, and what is left.
use vstd::prelude::*;

use crate::error::{error_code_of, unit_result_view, AppError, AppErrorView};
use crate::keys::{
    assoc_map, entry_views, insert_all, insert_sorted, lemma_assoc_at, seq_lt, sorted_keys,
};
use crate::text::{decimal, decimal_string};
use crate::types::{
    ErrorCode, ResourceCapacity, RuntimeResourcesResponse, TaskResourceReservation,
};

verus! {

/// `u64::saturating_add`.
pub open spec fn sat_add(a: u64, b: u64) -> u64 {
    if a + b > u64::MAX {
        u64::MAX
    } else {
        (a + b) as u64
    }
}

/// `u64::saturating_sub`.
pub open spec fn sat_sub(a: u64, b: u64) -> u64 {
    if a >= b {
        (a - b) as u64
    } else {
        0
    }
}

/// `requested` does not exceed `limit` where both are given.
pub open spec fn opt_within(requested: Option<u64>, limit: Option<u64>) -> bool {
    match (requested, limit) {
        (Some(r), Some(l)) => r <= l,
        _ => true,
    }
}

/// `held + requested` does not exceed `limit` where all three are given.
pub open spec fn opt_fits_on_top(held: Option<u64>, requested: Option<u64>, limit: Option<u64>) -> bool {
    match (held, requested, limit) {
        (Some(h), Some(r), Some(l)) => sat_add(h, r) <= l,
        _ => true,
    }
}

/// One reservation, on its own, fits in `limit`.
pub open spec fn fits_alone(limit: ResourceCapacity, r: TaskResourceReservation) -> bool {
    &&& r.task_slots <= limit.task_slots
    &&& opt_within(r.memory_bytes, limit.memory_bytes)
    &&& opt_within(r.pids, limit.pids)
}

/// A reservation fits in `limit` on top of what is already `held`.
pub open spec fn fits_on_top(
    limit: ResourceCapacity,
    held: ResourceCapacity,
    r: TaskResourceReservation,
) -> bool {
    &&& sat_add(held.task_slots, r.task_slots) <= limit.task_slots
    &&& opt_fits_on_top(held.memory_bytes, r.memory_bytes, limit.memory_bytes)
    &&& opt_fits_on_top(held.pids, r.pids, limit.pids)
}

/// What is held does not exceed `limit` in any accounted resource.
pub open spec fn held_within(limit: ResourceCapacity, held: ResourceCapacity) -> bool {
    &&& held.task_slots <= limit.task_slots
    &&& opt_within(held.memory_bytes, limit.memory_bytes)
    &&& opt_within(held.pids, limit.pids)
}

/// What is left of `limit` once `held` is taken, saturating at zero.
pub open spec fn remaining(limit: ResourceCapacity, held: ResourceCapacity) -> ResourceCapacity {
    ResourceCapacity {
        task_slots: sat_sub(limit.task_slots, held.task_slots),
        memory_bytes: match limit.memory_bytes {
            Some(l) => Some(sat_sub(l, held.memory_bytes.unwrap_or(0))),
            None => None,
        },
        pids: match limit.pids {
            Some(l) => Some(sat_sub(l, held.pids.unwrap_or(0))),
            None => None,
        },
    }
}

/// A running total with one optional amount added.
pub open spec fn add_opt(total: Option<u64>, amount: Option<u64>) -> Option<u64> {
    match amount {
        Some(a) => Some(sat_add(total.unwrap_or(0), a)),
        None => total,
    }
}

/// What a list of reservations adds up to, saturating. Memory and pids start
/// at zero where the capacity accounts them and at nothing otherwise.
pub open spec fn reserved_total(cap: ResourceCapacity, rs: Seq<TaskResourceReservation>) -> ResourceCapacity
    decreases rs.len(),
{
    if rs.len() == 0 {
        ResourceCapacity {
            task_slots: 0,
            memory_bytes: if cap.memory_bytes is Some { Some(0) } else { None },
            pids: if cap.pids is Some { Some(0) } else { None },
        }
    } else {
        let prev = reserved_total(cap, rs.drop_last());
        let r = rs.last();
        ResourceCapacity {
            task_slots: sat_add(prev.task_slots, r.task_slots),
            memory_bytes: add_opt(prev.memory_bytes, r.memory_bytes),
            pids: add_opt(prev.pids, r.pids),
        }
    }
}

/// The outcome of `ensure_within_capacity`.
pub open spec fn capacity_check(cap: ResourceCapacity, r: TaskResourceReservation) -> Result<(), AppErrorView> {
    if r.task_slots > cap.task_slots {
        Err(
            AppErrorView::InsufficientResources(
                "task requires "@ + decimal(r.task_slots as nat) + " task slots but runtime capacity is "@
                    + decimal(cap.task_slots as nat),
            ),
        )
    } else if !opt_within(r.memory_bytes, cap.memory_bytes) {
        Err(
            AppErrorView::InsufficientResources(
                "task requires "@ + decimal(r.memory_bytes->0 as nat)
                    + " memory_bytes but runtime capacity is "@ + decimal(cap.memory_bytes->0 as nat),
            ),
        )
    } else if !opt_within(r.pids, cap.pids) {
        Err(
            AppErrorView::InsufficientResources(
                "task requires "@ + decimal(r.pids->0 as nat) + " pids but runtime capacity is "@
                    + decimal(cap.pids->0 as nat),
            ),
        )
    } else {
        Ok(())
    }
}

/// The outcome of `ensure_within_tenant_quota` for a tenant with a quota.
pub open spec fn quota_check(
    tenant: Seq<char>,
    quota: ResourceCapacity,
    r: TaskResourceReservation,
) -> Result<(), AppErrorView> {
    let head = "tenant '"@ + tenant + "': task requires "@;
    if r.task_slots > quota.task_slots {
        Err(
            AppErrorView::InsufficientResources(
                head + decimal(r.task_slots as nat) + " task slots but tenant quota is "@ + decimal(
                    quota.task_slots as nat,
                ),
            ),
        )
    } else if !opt_within(r.memory_bytes, quota.memory_bytes) {
        Err(
            AppErrorView::InsufficientResources(
                head + decimal(r.memory_bytes->0 as nat) + " memory_bytes but tenant quota is "@
                    + decimal(quota.memory_bytes->0 as nat),
            ),
        )
    } else if !opt_within(r.pids, quota.pids) {
        Err(
            AppErrorView::InsufficientResources(
                head + decimal(r.pids->0 as nat) + " pids but tenant quota is "@ + decimal(
                    quota.pids->0 as nat,
                ),
            ),
        )
    } else {
        Ok(())
    }
}

/// The outcome of `ensure_within_tenant_quota`.
pub open spec fn tenant_quota_check(
    quotas: Map<Seq<char>, ResourceCapacity>,
    tenant: Option<Seq<char>>,
    r: TaskResourceReservation,
) -> Result<(), AppErrorView> {
    match tenant {
        Some(t) => if quotas.contains_key(t) {
            quota_check(t, quotas[t], r)
        } else {
            Ok(())
        },
        None => Ok(()),
    }
}

/// The result of `can_reserve_for_tenant`.
pub open spec fn tenant_admits(
    quotas: Map<Seq<char>, ResourceCapacity>,
    tenant: Option<Seq<char>>,
    held: ResourceCapacity,
    r: TaskResourceReservation,
) -> bool {
    match tenant {
        Some(t) => if quotas.contains_key(t) {
            fits_on_top(quotas[t], held, r)
        } else {
            true
        },
        None => true,
    }
}

/// An optional name taken by its view.
pub open spec fn opt_str_view(s: Option<&str>) -> Option<Seq<char>> {
    match s {
        Some(t) => Some(t@),
        None => None,
    }
}

/// Runtime capacity together with per-tenant soft quotas, keyed by tenant
/// name in name order.
#[derive(Debug)]
pub struct ResourceLedger {
    capacity: ResourceCapacity,
    tenant_quotas: Vec<(String, ResourceCapacity)>,
}

fn insufficient(head: &str, requested: u64, middle: &str, limit: u64) -> (e: AppError)
    ensures
        e@ == AppErrorView::InsufficientResources(
            head@ + decimal(requested as nat) + middle@ + decimal(limit as nat),
        ),
{
    let mut m = String::from_str(head);
    m.append(decimal_string(requested).as_str());
    m.append(middle);
    m.append(decimal_string(limit).as_str());
    AppError::InsufficientResources(m)
}

impl ResourceLedger {
    #[verifier::type_invariant]
    spec fn well_formed(self) -> bool {
        sorted_keys(entry_views(self.tenant_quotas@))
    }

    /// The runtime's total capacity.
    pub closed spec fn total(self) -> ResourceCapacity {
        self.capacity
    }

    /// The soft quota of each tenant that has one.
    pub closed spec fn quotas(self) -> Map<Seq<char>, ResourceCapacity> {
        assoc_map(entry_views(self.tenant_quotas@))
    }

    /// The tenant quotas as a list in name order.
    pub closed spec fn quota_entries(self) -> Seq<(Seq<char>, ResourceCapacity)> {
        entry_views(self.tenant_quotas@)
    }

    /// A ledger with the given capacity and no tenant quotas.
    pub fn new(capacity: ResourceCapacity) -> (l: Self)
        ensures
            l.total() == capacity,
            l.quotas() == Map::<Seq<char>, ResourceCapacity>::empty(),
    {
        Self::with_tenant_quotas(capacity, Vec::new())
    }

    /// A ledger with the given capacity and tenant quotas; where a tenant is
    /// named twice, the later quota holds.
    pub fn with_tenant_quotas(capacity: ResourceCapacity, quotas: Vec<(String, ResourceCapacity)>) -> (l: Self)
        ensures
            l.total() == capacity,
            l.quotas() == insert_all(entry_views(quotas@)),
            sorted_keys(entry_views(quotas@)) ==> l.quota_entries() == entry_views(quotas@),
    {
        let mut entries: Vec<(String, ResourceCapacity)> = Vec::new();
        let n = quotas.len();
        proof {
            assert(assoc_map(entry_views(entries@)) =~= Map::<Seq<char>, ResourceCapacity>::empty());
            assert(entry_views(quotas@).take(0) =~= Seq::<(Seq<char>, ResourceCapacity)>::empty());
        }
        for i in 0..n
            invariant
                n == quotas@.len(),
                sorted_keys(entry_views(entries@)),
                assoc_map(entry_views(entries@)) == insert_all(entry_views(quotas@).take(i as int)),
                sorted_keys(entry_views(quotas@)) ==> entry_views(entries@) == entry_views(
                    quotas@,
                ).take(i as int),
        {
            let ghost before = entries@;
            let key = quotas[i].0.clone();
            let value = quotas[i].1;
            proof {
                let s = entry_views(quotas@);
                if sorted_keys(s) {
                    assert forall|j: int| 0 <= j < before.len() implies seq_lt(
                        #[trigger] entry_views(before)[j].0,
                        key@,
                    ) by {
                        assert(entry_views(before)[j] == s.take(i as int)[j]);
                        assert(s[i as int].0 == key@);
                        assert(seq_lt(s[j].0, s[i as int].0));
                    }
                }
            }
            insert_sorted(&mut entries, key, value);
            proof {
                let s = entry_views(quotas@);
                if sorted_keys(s) {
                    assert(s.take(i as int).push((key@, value)) =~= s.take(i + 1));
                }
                assert(s.take(i + 1).drop_last() =~= s.take(i as int));
                assert(s.take(i + 1).last() == s[i as int]);
            }
        }
        proof {
            assert(entry_views(quotas@).take(n as int) =~= entry_views(quotas@));
        }
        ResourceLedger { capacity, tenant_quotas: entries }
    }

    /// The runtime's total capacity.
    pub fn capacity(&self) -> (c: &ResourceCapacity)
        ensures
            *c == self.total(),
    {
        &self.capacity
    }

    /// The soft quota configured for `tenant`, if any.
    pub fn tenant_quota(&self, tenant: &str) -> (q: Option<&ResourceCapacity>)
        ensures
            q is Some == self.quotas().contains_key(tenant@),
            q matches Some(c) ==> *c == self.quotas()[tenant@],
    {
        proof {
            use_type_invariant(self);
        }
        let ghost s = entry_views(self.tenant_quotas@);
        let wanted = String::from_str(tenant);
        let n = self.tenant_quotas.len();
        for i in 0..n
            invariant
                n == self.tenant_quotas@.len(),
                s == entry_views(self.tenant_quotas@),
                sorted_keys(s),
                wanted@ == tenant@,
                forall|j: int| 0 <= j < i ==> #[trigger] s[j].0 != tenant@,
        {
            if self.tenant_quotas[i].0 == wanted {
                proof {
                    lemma_assoc_at(s, i as int);
                }
                return Some(&self.tenant_quotas[i].1);
            }
        }
        proof {
            if self.quotas().contains_key(tenant@) {
                let j = choose|j: int| 0 <= j < s.len() && #[trigger] s[j].0 == tenant@;
                assert(s[j].0 != tenant@);
            }
        }
        None
    }

    /// The tenant quotas, in name order.
    pub fn tenant_quotas_snapshot(&self) -> (v: &Vec<(String, ResourceCapacity)>)
        ensures
            entry_views(v@) == self.quota_entries(),
            sorted_keys(entry_views(v@)),
            assoc_map(entry_views(v@)) == self.quotas(),
    {
        proof {
            use_type_invariant(self);
        }
        &self.tenant_quotas
    }

    /// Checks that one reservation, on its own, fits in the runtime's capacity.
    pub fn ensure_within_capacity(&self, reservation: &TaskResourceReservation) -> (r: Result<(), AppError>)
        ensures
            unit_result_view(r) == capacity_check(self.total(), *reservation),
    {
        let cap = &self.capacity;
        if reservation.task_slots > cap.task_slots {
            return Err(
                insufficient(
                    "task requires ",
                    reservation.task_slots,
                    " task slots but runtime capacity is ",
                    cap.task_slots,
                ),
            );
        }
        if let (Some(requested), Some(limit)) = (reservation.memory_bytes, cap.memory_bytes) {
            if requested > limit {
                return Err(
                    insufficient(
                        "task requires ",
                        requested,
                        " memory_bytes but runtime capacity is ",
                        limit,
                    ),
                );
            }
        }
        if let (Some(requested), Some(limit)) = (reservation.pids, cap.pids) {
            if requested > limit {
                return Err(
                    insufficient("task requires ", requested, " pids but runtime capacity is ", limit),
                );
            }
        }
        Ok(())
    }

    /// Checks that one reservation, on its own, fits in its tenant's quota.
    /// Without a tenant, or for a tenant with no quota, the check passes.
    pub fn ensure_within_tenant_quota(&self, tenant: Option<&str>, reservation: &TaskResourceReservation) -> (r: Result<(), AppError>)
        ensures
            unit_result_view(r) == tenant_quota_check(self.quotas(), opt_str_view(tenant), *reservation),
    {
        let (name, quota) = match tenant {
            Some(t) => match self.tenant_quota(t) {
                Some(q) => (t, q),
                None => return Ok(()),
            },
            None => return Ok(()),
        };
        let head = String::from_str("tenant '").concat(name).concat("': task requires ");
        if reservation.task_slots > quota.task_slots {
            return Err(
                insufficient(
                    head.as_str(),
                    reservation.task_slots,
                    " task slots but tenant quota is ",
                    quota.task_slots,
                ),
            );
        }
        if let (Some(requested), Some(limit)) = (reservation.memory_bytes, quota.memory_bytes) {
            if requested > limit {
                return Err(
                    insufficient(
                        head.as_str(),
                        requested,
                        " memory_bytes but tenant quota is ",
                        limit,
                    ),
                );
            }
        }
        if let (Some(requested), Some(limit)) = (reservation.pids, quota.pids) {
            if requested > limit {
                return Err(
                    insufficient(head.as_str(), requested, " pids but tenant quota is ", limit),
                );
            }
        }
        Ok(())
    }

    /// Whether one more reservation fits in the capacity on top of what is
    /// already reserved.
    pub fn can_reserve(&self, currently_reserved: &ResourceCapacity, reservation: &TaskResourceReservation) -> (b: bool)
        ensures
            b == fits_on_top(self.total(), *currently_reserved, *reservation),
    {
        if currently_reserved.task_slots.saturating_add(reservation.task_slots)
            > self.capacity.task_slots {
            return false;
        }
        if let (Some(reserved), Some(requested), Some(capacity)) = (
            currently_reserved.memory_bytes,
            reservation.memory_bytes,
            self.capacity.memory_bytes,
        ) {
            if reserved.saturating_add(requested) > capacity {
                return false;
            }
        }
        if let (Some(reserved), Some(requested), Some(capacity)) = (
            currently_reserved.pids,
            reservation.pids,
            self.capacity.pids,
        ) {
            if reserved.saturating_add(requested) > capacity {
                return false;
            }
        }
        true
    }

    /// Whether one more reservation fits in its tenant's quota on top of what
    /// the tenant already holds. Without a tenant, or for a tenant with no
    /// quota, it always fits.
    pub fn can_reserve_for_tenant(
        &self,
        tenant: Option<&str>,
        tenant_reserved: &ResourceCapacity,
        reservation: &TaskResourceReservation,
    ) -> (b: bool)
        ensures
            b == tenant_admits(self.quotas(), opt_str_view(tenant), *tenant_reserved, *reservation),
    {
        let quota = match tenant {
            Some(t) => match self.tenant_quota(t) {
                Some(q) => q,
                None => return true,
            },
            None => return true,
        };
        if tenant_reserved.task_slots.saturating_add(reservation.task_slots) > quota.task_slots {
            return false;
        }
        if let (Some(reserved), Some(requested), Some(limit)) = (
            tenant_reserved.memory_bytes,
            reservation.memory_bytes,
            quota.memory_bytes,
        ) {
            if reserved.saturating_add(requested) > limit {
                return false;
            }
        }
        if let (Some(reserved), Some(requested), Some(limit)) = (
            tenant_reserved.pids,
            reservation.pids,
            quota.pids,
        ) {
            if reserved.saturating_add(requested) > limit {
                return false;
            }
        }
        true
    }

    /// What the given reservations add up to, saturating.
    pub fn reserved_capacity(&self, reservations: &[TaskResourceReservation]) -> (c: ResourceCapacity)
        ensures
            c == reserved_total(self.total(), reservations@),
    {
        let mut task_slots: u64 = 0;
        let mut memory: Option<u64> = if self.capacity.memory_bytes.is_some() {
            Some(0u64)
        } else {
            None
        };
        let mut pids: Option<u64> = if self.capacity.pids.is_some() {
            Some(0u64)
        } else {
            None
        };
        let n = reservations.len();
        proof {
            assert(reservations@.take(0) =~= Seq::<TaskResourceReservation>::empty());
        }
        for i in 0..n
            invariant
                n == reservations@.len(),
                (ResourceCapacity { task_slots, memory_bytes: memory, pids }) == reserved_total(
                    self.total(),
                    reservations@.take(i as int),
                ),
        {
            let reservation = &reservations[i];
            task_slots = task_slots.saturating_add(reservation.task_slots);
            if let Some(value) = reservation.memory_bytes {
                let current = memory.unwrap_or(0);
                memory = Some(current.saturating_add(value));
            }
            if let Some(value) = reservation.pids {
                let current = pids.unwrap_or(0);
                pids = Some(current.saturating_add(value));
            }
            proof {
                let s = reservations@;
                assert(s.take(i + 1).drop_last() =~= s.take(i as int));
                assert(s.take(i + 1).last() == s[i as int]);
            }
        }
        proof {
            assert(reservations@.take(n as int) =~= reservations@);
        }
        ResourceCapacity { task_slots, memory_bytes: memory, pids }
    }

    /// What is left of the capacity once `reserved` is taken.
    pub fn available_capacity(&self, reserved: &ResourceCapacity) -> (c: ResourceCapacity)
        ensures
            c == remaining(self.total(), *reserved),
    {
        Self::tenant_available_capacity(&self.capacity, reserved)
    }

    /// What is left of a tenant's quota once `reserved` is taken.
    pub fn tenant_available_capacity(quota: &ResourceCapacity, reserved: &ResourceCapacity) -> (c: ResourceCapacity)
        ensures
            c == remaining(*quota, *reserved),
    {
        ResourceCapacity {
            task_slots: quota.task_slots.saturating_sub(reserved.task_slots),
            memory_bytes: match quota.memory_bytes {
                Some(q) => Some(q.saturating_sub(reserved.memory_bytes.unwrap_or(0))),
                None => None,
            },
            pids: match quota.pids {
                Some(q) => Some(q.saturating_sub(reserved.pids.unwrap_or(0))),
                None => None,
            },
        }
    }

    /// The resource picture of an idle runtime: nothing reserved, everything
    /// available, no reservations, no waiting tasks, no tenant rows.
    pub fn empty_snapshot(&self, runtime_id: String) -> (r: RuntimeResourcesResponse)
        ensures
            r.runtime_id == runtime_id,
            r.capacity == self.total(),
            r.reserved == reserved_total(self.total(), Seq::empty()),
            r.available == remaining(self.total(), reserved_total(self.total(), Seq::empty())),
            r.available == self.total(),
            r.active_reservations@.len() == 0,
            r.accepted_waiting_tasks == 0,
            r.tenants@.len() == 0,
    {
        let none: [TaskResourceReservation; 0] = [];
        let reserved = self.reserved_capacity(&none);
        proof {
            assert(none@ =~= Seq::<TaskResourceReservation>::empty());
        }
        RuntimeResourcesResponse {
            runtime_id,
            capacity: self.capacity,
            available: self.available_capacity(&reserved),
            reserved,
            active_reservations: Vec::new(),
            accepted_waiting_tasks: 0,
            tenants: Vec::new(),
        }
    }
}

impl Clone for ResourceLedger {
    /// A ledger with the same capacity and quotas.
    fn clone(&self) -> (r: Self)
        ensures
            r.total() == self.total(),
            r.quotas() == self.quotas(),
            r.quota_entries() == self.quota_entries(),
    {
        proof {
            use_type_invariant(self);
        }
        let mut entries: Vec<(String, ResourceCapacity)> = Vec::new();
        let n = self.tenant_quotas.len();
        for i in 0..n
            invariant
                n == self.tenant_quotas@.len(),
                sorted_keys(entry_views(self.tenant_quotas@)),
                entries@.len() == i,
                entry_views(entries@) == entry_views(self.tenant_quotas@).take(i as int),
        {
            let ghost before = entries@;
            let key = self.tenant_quotas[i].0.clone();
            entries.push((key, self.tenant_quotas[i].1));
            proof {
                let src = entry_views(self.tenant_quotas@);
                assert(entries@ == before.push(self.tenant_quotas@[i as int]));
                assert(entry_views(entries@).len() == i + 1);
                assert forall|j: int| 0 <= j <= i implies #[trigger] entry_views(entries@)[j]
                    == src.take(i + 1)[j] by {
                    assert(entry_views(entries@)[j] == (entries@[j].0@, entries@[j].1));
                    assert(src[j] == (self.tenant_quotas@[j].0@, self.tenant_quotas@[j].1));
                    if j < i {
                        assert(entries@[j] == before[j]);
                        assert(entry_views(before)[j] == (before[j].0@, before[j].1));
                        assert(entry_views(before)[j] == src.take(i as int)[j]);
                    }
                }
                assert(entry_views(entries@) =~= src.take(i + 1));
            }
        }
        proof {
            assert(entry_views(entries@) =~= entry_views(self.tenant_quotas@));
        }
        ResourceLedger { capacity: self.capacity, tenant_quotas: entries }
    }
}

/// Where the capacity accounts memory or pids, the total of any list of
/// reservations accounts them too.
pub proof fn lemma_total_accounts(cap: ResourceCapacity, rs: Seq<TaskResourceReservation>)
    ensures
        cap.memory_bytes is Some ==> reserved_total(cap, rs).memory_bytes is Some,
        cap.pids is Some ==> reserved_total(cap, rs).pids is Some,
    decreases rs.len(),
{
    if rs.len() > 0 {
        lemma_total_accounts(cap, rs.drop_last());
    }
}

/// On an idle runtime, a reservation can be admitted exactly when it passes
/// the submission-time check against the capacity: nothing held, the two
/// checks agree.
pub proof fn law_idle_admission_is_capacity_check(cap: ResourceCapacity, r: TaskResourceReservation)
    ensures
        fits_on_top(cap, reserved_total(cap, Seq::empty()), r) <==> capacity_check(cap, r) is Ok,
{
}

/// On a tenant with nothing held, admission against its quota agrees with
/// the submission-time check against that quota.
pub proof fn law_idle_tenant_admission_is_quota_check(
    tenant: Seq<char>,
    quota: ResourceCapacity,
    r: TaskResourceReservation,
)
    ensures
        fits_on_top(quota, reserved_total(quota, Seq::empty()), r) <==> quota_check(tenant, quota, r) is Ok,
{
}

/// Whatever is already reserved, a reservation that can be admitted would
/// also pass the submission-time check against the capacity.
pub proof fn law_admission_implies_capacity_check(
    cap: ResourceCapacity,
    rs: Seq<TaskResourceReservation>,
    r: TaskResourceReservation,
)
    requires
        fits_on_top(cap, reserved_total(cap, rs), r),
    ensures
        capacity_check(cap, r) is Ok,
{
    lemma_total_accounts(cap, rs);
}

/// Admitting a reservation keeps what is reserved within the capacity:
/// the total with the new reservation added stays within every accounted
/// limit.
pub proof fn law_admission_keeps_within_capacity(
    cap: ResourceCapacity,
    rs: Seq<TaskResourceReservation>,
    r: TaskResourceReservation,
)
    requires
        held_within(cap, reserved_total(cap, rs)),
        fits_on_top(cap, reserved_total(cap, rs), r),
    ensures
        held_within(cap, reserved_total(cap, rs.push(r))),
{
    lemma_total_accounts(cap, rs);
    assert(rs.push(r).drop_last() =~= rs);
}

/// A list of reservations, each admitted on top of those before it, never
/// holds more than the capacity.
pub proof fn law_admitted_in_order_stay_within_capacity(
    cap: ResourceCapacity,
    rs: Seq<TaskResourceReservation>,
)
    requires
        forall|i: int|
            0 <= i < rs.len() ==> fits_on_top(cap, reserved_total(cap, rs.take(i)), #[trigger] rs[i]),
    ensures
        held_within(cap, reserved_total(cap, rs)),
    decreases rs.len(),
{
    if rs.len() > 0 {
        let prev = rs.drop_last();
        assert forall|i: int| 0 <= i < prev.len() implies fits_on_top(
            cap,
            reserved_total(cap, prev.take(i)),
            #[trigger] prev[i],
        ) by {
            assert(prev.take(i) =~= rs.take(i));
            assert(prev[i] == rs[i]);
        }
        law_admitted_in_order_stay_within_capacity(cap, prev);
        let last = rs[rs.len() - 1];
        assert(rs.take(rs.len() - 1) =~= prev);
        assert(fits_on_top(cap, reserved_total(cap, prev), last));
        law_admission_keeps_within_capacity(cap, prev, last);
        assert(prev.push(last) =~= rs);
    }
}

/// While what is held stays within the limit and no sum overflows, a
/// reservation can be admitted on top of it exactly when it fits in what
/// `available_capacity` reports as left.
pub proof fn law_admission_is_fit_in_available(
    limit: ResourceCapacity,
    held: ResourceCapacity,
    r: TaskResourceReservation,
)
    requires
        held_within(limit, held),
        limit.memory_bytes is Some ==> held.memory_bytes is Some,
        limit.pids is Some ==> held.pids is Some,
        held.task_slots + r.task_slots <= u64::MAX,
        held.memory_bytes is Some && r.memory_bytes is Some ==> held.memory_bytes->0
            + r.memory_bytes->0 <= u64::MAX,
        held.pids is Some && r.pids is Some ==> held.pids->0 + r.pids->0 <= u64::MAX,
    ensures
        fits_on_top(limit, held, r) <==> fits_alone(remaining(limit, held), r),
{
}

/// Without a tenant, or for a tenant with no quota, the tenant checks never
/// stand in the way: only the runtime capacity limits such a task.
pub proof fn law_no_quota_no_tenant_limit(
    quotas: Map<Seq<char>, ResourceCapacity>,
    tenant: Option<Seq<char>>,
    held: ResourceCapacity,
    r: TaskResourceReservation,
)
    requires
        tenant matches Some(t) ==> !quotas.contains_key(t),
    ensures
        tenant_quota_check(quotas, tenant, r) is Ok,
        tenant_admits(quotas, tenant, held, r),
{
}

/// A task refused for exceeding the capacity or its tenant's quota is
/// reported with the `insufficient_resources` code and HTTP status 400.
pub proof fn law_refusals_are_insufficient_resources(
    cap: ResourceCapacity,
    quotas: Map<Seq<char>, ResourceCapacity>,
    tenant: Option<Seq<char>>,
    r: TaskResourceReservation,
)
    ensures
        capacity_check(cap, r) matches Err(e) ==> error_code_of(e) == ErrorCode::InsufficientResources
            && crate::error::http_status_of(e) == 400,
        tenant_quota_check(quotas, tenant, r) matches Err(e) ==> error_code_of(e)
            == ErrorCode::InsufficientResources && crate::error::http_status_of(e) == 400,
{
}

/// While what is held stays within the limit, what is left and what is
/// held add up to the limit in every accounted resource.
pub proof fn law_available_and_reserved_add_up(limit: ResourceCapacity, held: ResourceCapacity)
    requires
        held_within(limit, held),
        limit.memory_bytes is Some ==> held.memory_bytes is Some,
        limit.pids is Some ==> held.pids is Some,
    ensures
        remaining(limit, held).task_slots + held.task_slots == limit.task_slots,
        limit.memory_bytes matches Some(l) ==> remaining(limit, held).memory_bytes->0
            + held.memory_bytes->0 == l,
        limit.pids matches Some(l) ==> remaining(limit, held).pids->0 + held.pids->0 == l,
        remaining(limit, held).memory_bytes is Some == limit.memory_bytes is Some,
        remaining(limit, held).pids is Some == limit.pids is Some,
{
}

/// What one reservation adds to a running total.
pub open spec fn add_reservation(total: ResourceCapacity, r: TaskResourceReservation) -> ResourceCapacity {
    ResourceCapacity {
        task_slots: sat_add(total.task_slots, r.task_slots),
        memory_bytes: add_opt(total.memory_bytes, r.memory_bytes),
        pids: add_opt(total.pids, r.pids),
    }
}

proof fn lemma_total_is_fold(cap: ResourceCapacity, rs: Seq<TaskResourceReservation>)
    ensures
        reserved_total(cap, rs) == rs.fold_left(
            reserved_total(cap, Seq::empty()),
            |t: ResourceCapacity, r: TaskResourceReservation| add_reservation(t, r),
        ),
    decreases rs.len(),
{
    if rs.len() > 0 {
        lemma_total_is_fold(cap, rs.drop_last());
    }
}

/// The reservation total does not depend on the order of the reservations:
/// any two lists holding the same reservations add up to the same total.
pub proof fn law_reserved_total_order_independent(
    cap: ResourceCapacity,
    rs1: Seq<TaskResourceReservation>,
    rs2: Seq<TaskResourceReservation>,
)
    requires
        rs1.to_multiset() == rs2.to_multiset(),
    ensures
        reserved_total(cap, rs1) == reserved_total(cap, rs2),
{
    let f = |t: ResourceCapacity, r: TaskResourceReservation| add_reservation(t, r);
    assert(vstd::seq_lib::commutative_foldl(f)) by {
        assert forall|x: TaskResourceReservation, y: TaskResourceReservation, v: ResourceCapacity|
            #[trigger] f(f(v, x), y) == f(f(v, y), x) by {
        }
    }
    lemma_total_is_fold(cap, rs1);
    lemma_total_is_fold(cap, rs2);
    vstd::seq_lib::lemma_fold_left_permutation(rs1, rs2, f, reserved_total(cap, Seq::empty()));
}

/// Admission on top of what is held, in plain arithmetic: the task slots
/// held plus requested stay within the limit, and so do memory and pids
/// wherever the holder, the request and the limit all give one; a limit of
/// `u64::MAX` is never exceeded, since the sums saturate there.
pub proof fn law_admission_in_plain_arithmetic(
    limit: ResourceCapacity,
    held: ResourceCapacity,
    r: TaskResourceReservation,
)
    ensures
        fits_on_top(limit, held, r) <==> {
            &&& (held.task_slots + r.task_slots <= limit.task_slots || limit.task_slots == u64::MAX)
            &&& ((held.memory_bytes, r.memory_bytes, limit.memory_bytes) matches (
                Some(h),
                Some(m),
                Some(l),
            ) ==> h + m <= l || l == u64::MAX)
            &&& ((held.pids, r.pids, limit.pids) matches (Some(h), Some(m), Some(l)) ==> h + m <= l
                || l == u64::MAX)
        },
{
}

/// A tenant with a quota is admitted exactly when, in every resource its
/// quota, what it holds and the request all give, what it holds plus the
/// request stays within the quota (a quota of `u64::MAX` is never exceeded).
pub proof fn law_tenant_admission_in_plain_arithmetic(
    quotas: Map<Seq<char>, ResourceCapacity>,
    tenant: Seq<char>,
    held: ResourceCapacity,
    r: TaskResourceReservation,
)
    requires
        quotas.contains_key(tenant),
    ensures
        tenant_admits(quotas, Some(tenant), held, r) <==> {
            let q = quotas[tenant];
            &&& (held.task_slots + r.task_slots <= q.task_slots || q.task_slots == u64::MAX)
            &&& ((held.memory_bytes, r.memory_bytes, q.memory_bytes) matches (
                Some(h),
                Some(m),
                Some(l),
            ) ==> h + m <= l || l == u64::MAX)
            &&& ((held.pids, r.pids, q.pids) matches (Some(h), Some(m), Some(l)) ==> h + m <= l
                || l == u64::MAX)
        },
{
}

/// The submission check against the capacity passes exactly when the
/// request's task slots, and its memory and pids wherever both the request
/// and the capacity give them, are no more than the capacity; a refusal is
/// an `InsufficientResources` error.
pub proof fn law_capacity_check_in_plain_terms(cap: ResourceCapacity, r: TaskResourceReservation)
    ensures
        capacity_check(cap, r) is Ok <==> {
            &&& r.task_slots <= cap.task_slots
            &&& ((r.memory_bytes, cap.memory_bytes) matches (Some(m), Some(l)) ==> m <= l)
            &&& ((r.pids, cap.pids) matches (Some(m), Some(l)) ==> m <= l)
        },
        capacity_check(cap, r) matches Err(e) ==> e is InsufficientResources,
{
}

/// For a tenant with a quota, the submission check passes exactly when the
/// request's task slots, and its memory and pids wherever both the request
/// and the quota give them, are no more than the quota; without a tenant or
/// a quota it passes; a refusal is an `InsufficientResources` error.
pub proof fn law_tenant_quota_check_in_plain_terms(
    quotas: Map<Seq<char>, ResourceCapacity>,
    tenant: Option<Seq<char>>,
    r: TaskResourceReservation,
)
    ensures
        tenant_quota_check(quotas, tenant, r) is Ok <==> match tenant {
            Some(t) => quotas.contains_key(t) ==> {
                let q = quotas[t];
                &&& r.task_slots <= q.task_slots
                &&& ((r.memory_bytes, q.memory_bytes) matches (Some(m), Some(l)) ==> m <= l)
                &&& ((r.pids, q.pids) matches (Some(m), Some(l)) ==> m <= l)
            },
            None => true,
        },
        tenant_quota_check(quotas, tenant, r) matches Err(e) ==> e is InsufficientResources,
{
}

/// What is left, in plain arithmetic: the limit minus what is held, or zero
/// when more is held; memory and pids are reported exactly where the limit
/// accounts them, with nothing held counted as zero.
pub proof fn law_remaining_in_plain_arithmetic(limit: ResourceCapacity, held: ResourceCapacity)
    ensures
        remaining(limit, held).task_slots == if held.task_slots <= limit.task_slots {
            limit.task_slots - held.task_slots
        } else {
            0
        },
        remaining(limit, held).memory_bytes is Some <==> limit.memory_bytes is Some,
        remaining(limit, held).pids is Some <==> limit.pids is Some,
        limit.memory_bytes matches Some(l) ==> remaining(limit, held).memory_bytes->0 == {
            let h: u64 = match held.memory_bytes {
                Some(h) => h,
                None => 0,
            };
            if h <= l {
                l - h
            } else {
                0
            }
        },
        limit.pids matches Some(l) ==> remaining(limit, held).pids->0 == {
            let h: u64 = match held.pids {
                Some(h) => h,
                None => 0,
            };
            if h <= l {
                l - h
            } else {
                0
            }
        },
{
}

/// With no reservations, nothing is reserved: zero task slots, and zero
/// memory and pids exactly where the capacity accounts them.
pub proof fn law_nothing_reserved_is_zero(cap: ResourceCapacity)
    ensures
        reserved_total(cap, Seq::empty()).task_slots == 0,
        reserved_total(cap, Seq::empty()).memory_bytes == if cap.memory_bytes is Some {
            Some(0u64)
        } else {
            None
        },
        reserved_total(cap, Seq::empty()).pids == if cap.pids is Some {
            Some(0u64)
        } else {
            None
        },
{
}

/// One more reservation adds its task slots to the total, and its memory
/// and pids where it gives them (a total not yet accounted counts from
/// zero), each sum stopping at `u64::MAX`; what it does not give is left
/// as it was.
pub proof fn law_reserved_total_adds_one(
    cap: ResourceCapacity,
    rs: Seq<TaskResourceReservation>,
    r: TaskResourceReservation,
)
    ensures
        ({
            let before = reserved_total(cap, rs);
            let after = reserved_total(cap, rs.push(r));
            &&& after.task_slots as int == if before.task_slots + r.task_slots > u64::MAX {
                u64::MAX as int
            } else {
                before.task_slots + r.task_slots
            }
            &&& match r.memory_bytes {
                Some(m) => {
                    let b: int = match before.memory_bytes {
                        Some(b) => b as int,
                        None => 0,
                    };
                    after.memory_bytes == Some(
                        if b + m > u64::MAX {
                            u64::MAX
                        } else {
                            (b + m) as u64
                        },
                    )
                },
                None => after.memory_bytes == before.memory_bytes,
            }
            &&& match r.pids {
                Some(m) => {
                    let b: int = match before.pids {
                        Some(b) => b as int,
                        None => 0,
                    };
                    after.pids == Some(
                        if b + m > u64::MAX {
                            u64::MAX
                        } else {
                            (b + m) as u64
                        },
                    )
                },
                None => after.pids == before.pids,
            }
        }),
{
    assert(rs.push(r).drop_last() =~= rs);
}

} // verus!
