//! Session accounting records, and which of them count as users.

use vstd::prelude::*;

verus! {

/// The kind of a session accounting record.
#[derive(Clone, Copy, Debug, PartialEq, Eq)]
pub enum SessionKind {
    Empty,
    RunLevel,
    BootTime,
    OldTime,
    NewTime,
    InitProcess,
    LoginProcess,
    UserProcess,
    DeadProcess,
    Accounting,
    Signature,
    ShutdownTime,
}

/// The test for a record that stands for a logged-in user.
pub open spec fn is_user_record() -> spec_fn(SessionKind) -> bool {
    |kind: SessionKind| kind is UserProcess
}

/// The number of records that stand for a logged-in user.
pub open spec fn active_users(records: Seq<SessionKind>) -> nat {
    records.filter(is_user_record()).len()
}

/// Counts the records of kind `UserProcess`; every other kind is passed
/// over. No records give zero.
pub fn count_active_users(records: &[SessionKind]) -> (count: u64)
    ensures
        count == active_users(records@),
{
    let mut count: u64 = 0;
    let mut i: usize = 0;
    while i < records.len()
        invariant
            i <= records@.len(),
            count == records@.take(i as int).filter(is_user_record()).len(),
            count <= i,
        decreases records@.len() - i,
    {
        proof {
            reveal(Seq::filter);
            assert(records@.take(i + 1).drop_last() =~= records@.take(i as int));
        }
        match records[i] {
            SessionKind::UserProcess => {
                count = count + 1;
            },
            _ => {},
        }
        i = i + 1;
    }
    proof {
        assert(records@.take(i as int) =~= records@);
    }
    count
}

/// No records hold no user; a further record adds one exactly when it is a
/// user record; and the count of two runs of records is the sum of their
/// counts.
pub proof fn active_users_by_parts(
    first: Seq<SessionKind>,
    second: Seq<SessionKind>,
    kind: SessionKind,
)
    ensures
        active_users(Seq::<SessionKind>::empty()) == 0,
        active_users(first.push(kind)) == active_users(first) + if kind is UserProcess {
            1nat
        } else {
            0nat
        },
        active_users(first + second) == active_users(first) + active_users(second),
        active_users(first) <= first.len(),
{
    reveal(Seq::filter);
    assert(first.push(kind).drop_last() =~= first);
    Seq::filter_distributes_over_add(first, second, is_user_record());
    first.lemma_filter_len(is_user_record());
}

} // verus!
