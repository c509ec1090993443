use vstd::prelude::*;

use crate::msg::ResponseShape;

verus! {

/// The type of the event that a vault emits when `Unlock` creates an
/// unlocking position.
pub const UNLOCKING_POSITION_CREATED_EVENT_TYPE: &'static str = "unlocking_position_created";

/// The key of the attribute of that event which holds the new lockup id, in
/// decimal.
pub const UNLOCKING_POSITION_ATTR_KEY: &'static str = "lockup_id";

/// A point in time or in block height after which something expires.
#[derive(Clone, Debug, PartialEq, Eq)]
pub enum Expiration {
    /// Expires once the chain reaches this block height.
    AtHeight(u64),
    /// Expires once block time reaches this many nanoseconds since the Unix
    /// epoch.
    AtTime(u64),
    /// Never expires.
    Never,
}

/// A span of blocks or of time.
#[derive(Clone, Debug, PartialEq, Eq)]
pub enum Duration {
    /// A number of blocks.
    Height(u64),
    /// A number of seconds.
    Time(u64),
}

/// The execute messages of the lockup extension.
#[allow(inconsistent_fields)]
#[derive(Clone, Debug, PartialEq, Eq)]
pub enum LockupExecuteMsg {
    /// Starts unlocking `amount` vault tokens, attached as funds. The vault
    /// creates one lockup with a fresh id for the caller, emits the event
    /// `UNLOCKING_POSITION_CREATED_EVENT_TYPE` with the id under
    /// `UNLOCKING_POSITION_ATTR_KEY`, and returns the id in its response data.
    Unlock { amount: u128 },
    /// Withdraws the assets of a lockup that has finished unlocking, to
    /// `recipient` or, when it is `None`, to the caller.
    WithdrawUnlocked { recipient: Option<String>, lockup_id: u64 },
    /// Lets a whitelisted caller bypass the lockup and receive the assets for
    /// `amount` vault tokens at once.
    ForceWithdraw { recipient: Option<String>, amount: u128 },
    /// Lets a whitelisted caller withdraw from a position that is already
    /// unlocking: `amount` of its underlying assets, or all of them when it is
    /// `None`.
    ForceWithdrawUnlocking { lockup_id: u64, amount: Option<u128>, recipient: Option<String> },
}

/// The queries of the lockup extension.
#[derive(Clone, Debug, PartialEq, Eq)]
pub enum LockupQueryMsg {
    /// The unclaimed lockups of `owner` whose id is above `start_after`, in
    /// ascending order of id, at most `limit` of them.
    Lockups { owner: String, start_after: Option<u64>, limit: Option<u32> },
    /// The lockup with this id.
    Lockup { lockup_id: u64 },
    /// The duration for which the vault locks.
    LockupDuration,
}

/// A position that is unlocking.
#[derive(Clone, Debug, PartialEq, Eq)]
pub struct Lockup {
    pub owner: String,
    pub id: u64,
    pub release_at: Expiration,
    pub amount: u128,
}

/// Whether `page` is an answer that a `Lockups` query with these bounds
/// allows: no more than `limit` lockups, every id above `start_after`, and
/// ids strictly increasing.
pub open spec fn is_lockups_page(start_after: Option<u64>, limit: Option<u32>, page: Seq<Lockup>) -> bool {
    &&& (limit matches Some(l) ==> page.len() <= l)
    &&& (start_after matches Some(s) ==> forall|i: int| 0 <= i < page.len() ==> page[i].id > s)
    &&& forall|i: int, j: int| 0 <= i < j < page.len() ==> page[i].id < page[j].id
}

impl LockupQueryMsg {
    pub open spec fn spec_response_shape(&self) -> ResponseShape {
        match self {
            LockupQueryMsg::Lockups { .. } => ResponseShape::Lockups,
            LockupQueryMsg::Lockup { .. } => ResponseShape::Lockup,
            LockupQueryMsg::LockupDuration => ResponseShape::Duration,
        }
    }

    /// The shape of the response that a conforming vault answers this query
    /// with.
    pub fn response_shape(&self) -> (r: ResponseShape)
        ensures
            r == self.spec_response_shape(),
    {
        match self {
            LockupQueryMsg::Lockups { .. } => ResponseShape::Lockups,
            LockupQueryMsg::Lockup { .. } => ResponseShape::Lockup,
            LockupQueryMsg::LockupDuration => ResponseShape::Duration,
        }
    }

    pub open spec fn spec_admits_lockups_page(&self, page: Seq<Lockup>) -> bool {
        match self {
            LockupQueryMsg::Lockups { start_after, limit, .. } => is_lockups_page(*start_after, *limit, page),
            _ => false,
        }
    }

    /// Whether `page` is an answer that this query allows. Only a `Lockups`
    /// query is answered with a list of lockups.
    pub fn admits_lockups_page(&self, page: &Vec<Lockup>) -> (r: bool)
        ensures
            r == self.spec_admits_lockups_page(page@),
    {
        match self {
            LockupQueryMsg::Lockups { start_after, limit, .. } => {
                if let Some(l) = limit {
                    if page.len() > *l as usize {
                        return false;
                    }
                }
                let mut i: usize = 0;
                while i < page.len()
                    invariant
                        0 <= i <= page.len(),
                        self.spec_admits_lockups_page(page@) == is_lockups_page(*start_after, *limit, page@),
                        *limit matches Some(l) ==> page.len() <= l,
                        *start_after matches Some(s) ==> forall|k: int| 0 <= k < i ==> page@[k].id > s,
                        forall|k: int, m: int| 0 <= k < m < i ==> page@[k].id < page@[m].id,
                    decreases page.len() - i,
                {
                    let id = page[i].id;
                    if let Some(s) = start_after {
                        if id <= *s {
                            assert(page@[i as int].id <= *s);
                            return false;
                        }
                    }
                    if i > 0 && page[i - 1].id >= id {
                        assert(page@[i - 1].id >= page@[i as int].id);
                        return false;
                    }
                    i = i + 1;
                }
                true
            },
            _ => false,
        }
    }
}

} // verus!
