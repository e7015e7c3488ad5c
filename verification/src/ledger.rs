//! The victory leaderboard: three independent ordered lists of
//! (address, score) pairs, one per victory category, each replaced
//! wholesale by an external caller. Both fields are free-form strings;
//! no ordering or uniqueness is enforced. An externally supplied batch
//! whose entries do not all parse is rejected whole: the prior contents
//! stay, and the caller gets a structured error.

use vstd::prelude::*;

verus! {

/// One leaderboard standing: a player's address and score, both
/// free-form strings.
#[derive(Debug, PartialEq, Eq)]
pub struct OnChainPlayer {
    pub address: String,
    pub score: String,
}

/// One record as the host hands it over, before it is checked: either
/// field may be missing, which makes the record malformed.
#[derive(Debug, PartialEq, Eq)]
pub struct RawEntry {
    pub address: Option<String>,
    pub score: Option<String>,
}

/// The three victory categories, one leaderboard each.
#[derive(Debug, Clone, Copy, PartialEq, Eq, Structural)]
pub enum Tables {
    EconomicVictory,
    CulturalVictory,
    DiplomaticVictory,
}

/// The table shown at tab position `i`; an out-of-range position falls
/// back to the first table.
pub open spec fn table_of_index(i: usize) -> Tables {
    if i == 0 {
        Tables::EconomicVictory
    } else if i == 1 {
        Tables::CulturalVictory
    } else if i == 2 {
        Tables::DiplomaticVictory
    } else {
        Tables::EconomicVictory
    }
}

impl Tables {
    /// The display label of this category's tab.
    pub open spec fn label_spec(self) -> Seq<char> {
        match self {
            Tables::EconomicVictory => "Economic Victory"@,
            Tables::CulturalVictory => "Cultural Victory"@,
            Tables::DiplomaticVictory => "Diplomatic Victory"@,
        }
    }

    /// The display label of this category's tab.
    pub fn label(&self) -> (r: String)
        ensures
            r@ == self.label_spec(),
    {
        match self {
            Tables::EconomicVictory => String::from_str("Economic Victory"),
            Tables::CulturalVictory => String::from_str("Cultural Victory"),
            Tables::DiplomaticVictory => String::from_str("Diplomatic Victory"),
        }
    }
}

impl From<usize> for Tables {
    /// The table at a tab position, first table for any position out of
    /// range.
    fn from(i: usize) -> (r: Tables) {
        if i == 0 {
            Tables::EconomicVictory
        } else if i == 1 {
            Tables::CulturalVictory
        } else if i == 2 {
            Tables::DiplomaticVictory
        } else {
            Tables::EconomicVictory
        }
    }
}

impl vstd::std_specs::convert::FromSpecImpl<usize> for Tables {
    open spec fn obeys_from_spec() -> bool {
        true
    }

    open spec fn from_spec(i: usize) -> Tables {
        table_of_index(i)
    }
}

/// Why a raw record failed to parse.
#[derive(Debug, Clone, Copy, PartialEq, Eq, Structural)]
pub enum EntryFault {
    MissingAddress,
    MissingScore,
}

/// A rejected leaderboard update: which category's batch failed, and the
/// fault of its first malformed record.
#[derive(Debug, Clone, Copy, PartialEq, Eq, Structural)]
pub struct LedgerError {
    pub category: Tables,
    pub fault: EntryFault,
}

/// A raw record parses exactly when both fields are present.
pub open spec fn entry_well_formed(r: RawEntry) -> bool {
    r.address is Some && r.score is Some
}

/// Every record of the batch parses.
pub open spec fn batch_well_formed(rs: Seq<RawEntry>) -> bool {
    forall|i: int| 0 <= i < rs.len() ==> entry_well_formed(#[trigger] rs[i])
}

/// The standing that a well-formed raw record parses to.
pub open spec fn parse_entry_spec(r: RawEntry) -> OnChainPlayer {
    OnChainPlayer { address: r.address.unwrap(), score: r.score.unwrap() }
}

/// The standings that a fully well-formed batch parses to, in order.
pub open spec fn parse_batch(rs: Seq<RawEntry>) -> Seq<OnChainPlayer> {
    rs.map_values(|r: RawEntry| parse_entry_spec(r))
}

/// The fault of one malformed record: a missing address is reported
/// before a missing score.
pub open spec fn entry_fault(r: RawEntry) -> EntryFault {
    if r.address is None {
        EntryFault::MissingAddress
    } else {
        EntryFault::MissingScore
    }
}

/// The index of the first malformed record of the batch (its length if
/// every record is well-formed).
pub open spec fn first_fault(rs: Seq<RawEntry>) -> int
    decreases rs.len(),
{
    if rs.len() == 0 {
        0
    } else if !entry_well_formed(rs[0]) {
        0
    } else {
        1 + first_fault(rs.subrange(1, rs.len() as int))
    }
}

/// A well-formed prefix up to a malformed record pins the first fault.
proof fn lemma_first_fault_at(rs: Seq<RawEntry>, k: int)
    requires
        0 <= k < rs.len(),
        forall|j: int| 0 <= j < k ==> entry_well_formed(#[trigger] rs[j]),
        !entry_well_formed(rs[k]),
    ensures
        first_fault(rs) == k,
    decreases rs.len(),
{
    if k > 0 {
        let tail = rs.subrange(1, rs.len() as int);
        assert forall|j: int| 0 <= j < k - 1 implies entry_well_formed(#[trigger] tail[j]) by {
            assert(tail[j] == rs[j + 1]);
        }
        assert(tail[k - 1] == rs[k]);
        lemma_first_fault_at(tail, k - 1);
    }
}

/// Turns one raw record into a standing, or reports what is missing.
pub fn parse_entry(raw: RawEntry) -> (r: Result<OnChainPlayer, EntryFault>)
    ensures
        entry_well_formed(raw) <==> r is Ok,
        r matches Ok(p) ==> p == parse_entry_spec(raw),
        r matches Err(f) ==> f == entry_fault(raw),
{
    match raw {
        RawEntry { address: Some(address), score: Some(score) } => Ok(
            OnChainPlayer { address, score },
        ),
        RawEntry { address: None, score: _ } => Err(EntryFault::MissingAddress),
        RawEntry { address: Some(_), score: None } => Err(EntryFault::MissingScore),
    }
}

/// The store of the three leaderboards. Each slot is independent and is
/// only ever replaced as a whole, never merged into.
pub struct LeaderboardStore {
    pub economic: Vec<OnChainPlayer>,
    pub cultural: Vec<OnChainPlayer>,
    pub diplomatic: Vec<OnChainPlayer>,
}

impl LeaderboardStore {
    /// The contents of one category's slot.
    pub open spec fn board(self, category: Tables) -> Seq<OnChainPlayer> {
        match category {
            Tables::EconomicVictory => self.economic@,
            Tables::CulturalVictory => self.cultural@,
            Tables::DiplomaticVictory => self.diplomatic@,
        }
    }

    /// A fresh store: every board empty.
    pub fn new() -> (s: LeaderboardStore)
        ensures
            forall|t: Tables| s.board(t) == Seq::<OnChainPlayer>::empty(),
    {
        let s = LeaderboardStore { economic: Vec::new(), cultural: Vec::new(), diplomatic: Vec::new() };
        assert forall|t: Tables| s.board(t) == Seq::<OnChainPlayer>::empty() by {
            assert(s.economic@ =~= Seq::<OnChainPlayer>::empty());
            assert(s.cultural@ =~= Seq::<OnChainPlayer>::empty());
            assert(s.diplomatic@ =~= Seq::<OnChainPlayer>::empty());
        }
        s
    }

    /// Wholesale replacement of one category's contents; the other two
    /// boards keep their contents.
    pub fn set(&mut self, category: Tables, entries: Vec<OnChainPlayer>)
        ensures
            final(self).board(category) == entries@,
            forall|t: Tables| t != category ==> final(self).board(t) == old(self).board(t),
    {
        match category {
            Tables::EconomicVictory => self.economic = entries,
            Tables::CulturalVictory => self.cultural = entries,
            Tables::DiplomaticVictory => self.diplomatic = entries,
        }
    }

    /// Read access to one category's contents.
    pub fn get(&self, category: Tables) -> (r: &Vec<OnChainPlayer>)
        ensures
            r@ == self.board(category),
    {
        match category {
            Tables::EconomicVictory => &self.economic,
            Tables::CulturalVictory => &self.cultural,
            Tables::DiplomaticVictory => &self.diplomatic,
        }
    }

    /// Parses an externally supplied batch and replaces one board with
    /// it. A batch with any malformed record is rejected whole: the
    /// store is left exactly as it was and the error names the category
    /// and the first record's fault.
    pub fn set_checked(&mut self, category: Tables, raw: Vec<RawEntry>) -> (r: Result<
        (),
        LedgerError,
    >)
        ensures
            batch_well_formed(raw@) <==> r is Ok,
            r is Ok ==> final(self).board(category) == parse_batch(raw@),
            r is Ok ==> forall|t: Tables|
                t != category ==> final(self).board(t) == old(self).board(t),
            r is Err ==> *final(self) == *old(self),
            r matches Err(e) ==> e == (LedgerError {
                category,
                fault: entry_fault(raw@[first_fault(raw@)]),
            }),
    {
        let ghost all = raw@;
        let mut parsed: Vec<OnChainPlayer> = Vec::new();
        let mut rest = raw;
        let ghost k: int = 0;
        #[verifier::loop_isolation(false)]
        while rest.len() > 0
            invariant
                0 <= k <= all.len(),
                rest@ == all.subrange(k, all.len() as int),
                parsed@.len() == k,
                forall|j: int| 0 <= j < k ==> entry_well_formed(#[trigger] all[j]),
                forall|j: int| 0 <= j < k ==> parsed@[j] == parse_entry_spec(#[trigger] all[j]),
            decreases rest@.len(),
        {
            let head = rest.remove(0);
            proof {
                assert(head == all[k]);
                assert(rest@ =~= all.subrange(k + 1, all.len() as int));
            }
            match parse_entry(head) {
                Ok(p) => parsed.push(p),
                Err(fault) => {
                    proof {
                        assert(!entry_well_formed(all[k]));
                        lemma_first_fault_at(all, k);
                        assert(!batch_well_formed(all));
                        assert(fault == entry_fault(all[first_fault(all)]));
                    }
                    return Err(LedgerError { category, fault });
                },
            }
            proof {
                k = k + 1;
            }
        }
        assert(parsed@ =~= parse_batch(all));
        self.set(category, parsed);
        Ok(())
    }
}

/// Replace, not merge: setting one category's board twice keeps exactly
/// the second batch, and never touches the other boards. The three
/// stores are one store observed before, between and after the two
/// replacements.
pub proof fn lemma_replace_not_merge(
    before: LeaderboardStore,
    between: LeaderboardStore,
    after: LeaderboardStore,
    category: Tables,
    first: Seq<OnChainPlayer>,
    second: Seq<OnChainPlayer>,
)
    requires
        between.board(category) == first,
        forall|t: Tables| t != category ==> between.board(t) == before.board(t),
        after.board(category) == second,
        forall|t: Tables| t != category ==> after.board(t) == between.board(t),
    ensures
        after.board(category) == second,
        forall|t: Tables| t != category ==> after.board(t) == before.board(t),
{
}

} // verus!
