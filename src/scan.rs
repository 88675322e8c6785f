use vstd::prelude::*;

verus! {

/// A failure that the token reported, other than the two answers that the
/// scan expects.
#[derive(Clone, Copy, Debug, PartialEq, Eq, Structural)]
pub enum DeviceFault {
    /// The token refused the command.
    Command,
    /// The connection to the token failed.
    Communication,
    /// The driver library reported an error.
    Library,
    /// Any other error.
    Unexpected,
}

/// What the token answered when asked for the name of one slot.
#[derive(Debug)]
pub enum QueryOutcome {
    /// The slot is programmed and carries this name.
    Named(String),
    /// The slot exists but holds no configuration.
    NotProgrammed,
    /// The index lies past the last slot of the token.
    InvalidSlot,
    /// The query failed.
    Failed(DeviceFault),
}

/// Why a scan of the slots was abandoned.
#[derive(Clone, Copy, Debug, PartialEq, Eq, Structural)]
pub enum ScanError {
    /// The token failed while the slot at `index` was queried.
    Device { index: u8, fault: DeviceFault },
    /// Every index up to the largest one was queried without reaching the
    /// end of the slots.
    Overflow,
}

/// One programmed slot: its position on the token and its name.
#[derive(Debug)]
pub struct Slot {
    pub index: u8,
    pub name: String,
}

pub type SlotView = (u8, Seq<char>);

impl View for Slot {
    type V = SlotView;

    open spec fn view(&self) -> SlotView {
        (self.index, self.name@)
    }
}

/// The abstract contents of a sequence of slots.
pub open spec fn slots_view(v: Seq<Slot>) -> Seq<SlotView> {
    v.map_values(|s: Slot| s@)
}

/// Two answers that carry the same information.
pub open spec fn same_outcome(a: QueryOutcome, b: QueryOutcome) -> bool {
    match (a, b) {
        (QueryOutcome::Named(x), QueryOutcome::Named(y)) => x@ == y@,
        (QueryOutcome::NotProgrammed, QueryOutcome::NotProgrammed) => true,
        (QueryOutcome::InvalidSlot, QueryOutcome::InvalidSlot) => true,
        (QueryOutcome::Failed(f), QueryOutcome::Failed(g)) => f == g,
        _ => false,
    }
}

/// Whether an answer lets the scan go on to the next index.
pub open spec fn continues(o: QueryOutcome) -> bool {
    o is Named || o is NotProgrammed
}

/// The answer that a recorded token gives at index `i`: past the end of the
/// record every index is invalid.
pub open spec fn reply_at(r: Seq<QueryOutcome>, i: int) -> QueryOutcome {
    if 0 <= i < r.len() {
        r[i]
    } else {
        QueryOutcome::InvalidSlot
    }
}

/// The result of a scan that starts at index `i` on a token answering `r`.
pub open spec fn scan_from(r: Seq<QueryOutcome>, i: nat) -> Result<Seq<SlotView>, ScanError>
    decreases 255 - i,
{
    match reply_at(r, i as int) {
        QueryOutcome::Named(n) => if i >= 255 {
            Err(ScanError::Overflow)
        } else {
            match scan_from(r, i + 1) {
                Ok(rest) => Ok(seq![(i as u8, n@)] + rest),
                Err(e) => Err(e),
            }
        },
        QueryOutcome::NotProgrammed => if i >= 255 {
            Err(ScanError::Overflow)
        } else {
            scan_from(r, i + 1)
        },
        QueryOutcome::InvalidSlot => Ok(Seq::empty()),
        QueryOutcome::Failed(f) => Err(ScanError::Device { index: i as u8, fault: f }),
    }
}

/// The number of queries that a scan starting at index `i` makes.
pub open spec fn queries_from(r: Seq<QueryOutcome>, i: nat) -> nat
    decreases 255 - i,
{
    if i < 255 && continues(reply_at(r, i as int)) {
        1 + queries_from(r, i + 1)
    } else {
        1
    }
}

/// The named slots among the indices from `i` up to, not including, `m`, in
/// ascending order.
pub open spec fn named_between(r: Seq<QueryOutcome>, i: nat, m: nat) -> Seq<SlotView>
    decreases m - i,
{
    if i >= m {
        Seq::empty()
    } else {
        match reply_at(r, i as int) {
            QueryOutcome::Named(n) => seq![(i as u8, n@)] + named_between(r, i + 1, m),
            _ => named_between(r, i + 1, m),
        }
    }
}

/// Prepends the slots found so far to the outcome of the rest of a scan.
pub open spec fn after(found: Seq<SlotView>, rest: Result<Seq<SlotView>, ScanError>) -> Result<
    Seq<SlotView>,
    ScanError,
> {
    match rest {
        Ok(s) => Ok(found + s),
        Err(e) => Err(e),
    }
}

impl QueryOutcome {
    /// A copy of the answer.
    pub fn duplicate(&self) -> (r: QueryOutcome)
        ensures
            same_outcome(*self, r),
    {
        match self {
            QueryOutcome::Named(n) => QueryOutcome::Named(n.clone()),
            QueryOutcome::NotProgrammed => QueryOutcome::NotProgrammed,
            QueryOutcome::InvalidSlot => QueryOutcome::InvalidSlot,
            QueryOutcome::Failed(f) => QueryOutcome::Failed(*f),
        }
    }
}

/// A scan of the slots of one algorithm in progress: the index to query next
/// and the named slots found below it.
pub struct SlotScan {
    index: u8,
    slots: Vec<Slot>,
}

impl View for SlotScan {
    type V = (u8, Seq<SlotView>);

    closed spec fn view(&self) -> (u8, Seq<SlotView>) {
        (self.index, slots_view(self.slots@))
    }
}

/// What a scan does after one answer.
pub enum ScanStep {
    /// Query the token at the scan's next index.
    Next(SlotScan),
    /// The token has no more slots; these are the named ones.
    Done(Vec<Slot>),
    /// The scan failed; nothing it found is kept.
    Aborted(ScanError),
}

impl SlotScan {
    /// A scan that has not queried the token yet.
    pub fn new() -> (r: SlotScan)
        ensures
            r@ == (0u8, Seq::<SlotView>::empty()),
    {
        let r = SlotScan { index: 0, slots: Vec::new() };
        assert(slots_view(r.slots@) =~= Seq::<SlotView>::empty());
        r
    }

    /// The index that the token is to be queried at next.
    pub fn index(&self) -> (r: u8)
        ensures
            r == self@.0,
    {
        self.index
    }

    /// Takes the token's answer at the current index into account. A named
    /// slot is kept and an unprogrammed one skipped; an invalid index ends the
    /// scan; any other failure abandons it. A named or unprogrammed slot at
    /// the largest index abandons the scan too, since there is no next index
    /// to query.
    pub fn advance(self, outcome: QueryOutcome) -> (r: ScanStep)
        ensures
            match outcome {
                QueryOutcome::Named(n) => if self@.0 == 255 {
                    r == ScanStep::Aborted(ScanError::Overflow)
                } else {
                    match r {
                        ScanStep::Next(s) => s@ == (
                            (self@.0 + 1) as u8,
                            self@.1.push((self@.0, n@)),
                        ),
                        _ => false,
                    }
                },
                QueryOutcome::NotProgrammed => if self@.0 == 255 {
                    r == ScanStep::Aborted(ScanError::Overflow)
                } else {
                    match r {
                        ScanStep::Next(s) => s@ == ((self@.0 + 1) as u8, self@.1),
                        _ => false,
                    }
                },
                QueryOutcome::InvalidSlot => match r {
                    ScanStep::Done(v) => slots_view(v@) == self@.1,
                    _ => false,
                },
                QueryOutcome::Failed(f) => r == ScanStep::Aborted(
                    ScanError::Device { index: self@.0, fault: f },
                ),
            },
    {
        let SlotScan { index, mut slots } = self;
        match outcome {
            QueryOutcome::Named(name) => {
                if index == 255 {
                    return ScanStep::Aborted(ScanError::Overflow);
                }
                let ghost before = slots@;
                slots.push(Slot { index, name });
                assert(slots_view(slots@) =~= slots_view(before).push((index, slots@.last().name@)));
                ScanStep::Next(SlotScan { index: index + 1, slots })
            },
            QueryOutcome::NotProgrammed => {
                if index == 255 {
                    return ScanStep::Aborted(ScanError::Overflow);
                }
                ScanStep::Next(SlotScan { index: index + 1, slots })
            },
            QueryOutcome::InvalidSlot => ScanStep::Done(slots),
            QueryOutcome::Failed(fault) => ScanStep::Aborted(ScanError::Device { index, fault }),
        }
    }
}

/// The answer that a recorded token gives at `index`: past the end of the
/// record every index is invalid.
fn recorded_reply(replies: &Vec<QueryOutcome>, index: u8) -> (r: QueryOutcome)
    ensures
        same_outcome(reply_at(replies@, index as int), r),
{
    if (index as usize) < replies.len() {
        replies[index as usize].duplicate()
    } else {
        QueryOutcome::InvalidSlot
    }
}

/// Scans the slots of a token whose answers are recorded in `replies`, the
/// answer at index `i` being `replies[i]`. Returns the outcome of the scan
/// and the number of queries it made.
pub fn scan_replies(replies: &Vec<QueryOutcome>) -> (r: (Result<Vec<Slot>, ScanError>, usize))
    ensures
        match r.0 {
            Ok(v) => scan_from(replies@, 0) == Ok::<Seq<SlotView>, ScanError>(slots_view(v@)),
            Err(e) => scan_from(replies@, 0) == Err::<Seq<SlotView>, ScanError>(e),
        },
        r.1 == queries_from(replies@, 0),
{
    let ghost rs = replies@;
    let mut scan = SlotScan::new();
    let mut count: usize = 0;
    assert(after(Seq::empty(), scan_from(rs, 0)) == scan_from(rs, 0)) by {
        match scan_from(rs, 0) {
            Ok(s) => assert(Seq::<SlotView>::empty() + s =~= s),
            Err(e) => {},
        }
    }
    loop
        invariant
            rs == replies@,
            scan@.0 <= 255,
            scan_from(rs, 0) == after(scan@.1, scan_from(rs, scan@.0 as nat)),
            count + queries_from(rs, scan@.0 as nat) == queries_from(rs, 0),
            count <= scan@.0,
        decreases 256 - scan@.0,
    {
        let index = scan.index();
        let ghost found = scan@.1;
        let outcome = recorded_reply(replies, index);
        let ghost o = outcome;
        count = count + 1;
        match scan.advance(outcome) {
            ScanStep::Next(next) => {
                proof {
                    match o {
                        QueryOutcome::Named(n) => {
                            let rest = scan_from(rs, (index + 1) as nat);
                            assert(reply_at(rs, index as int) is Named);
                            match rest {
                                Ok(t) => {
                                    assert(found.push((index, n@)) + t =~= found + (seq![(index, n@)] + t));
                                },
                                Err(e) => {},
                            }
                        },
                        _ => {
                            assert(reply_at(rs, index as int) is NotProgrammed);
                        },
                    }
                }
                scan = next;
            },
            ScanStep::Done(v) => {
                assert(reply_at(rs, index as int) is InvalidSlot);
                assert(found + Seq::<SlotView>::empty() =~= found);
                return (Ok(v), count);
            },
            ScanStep::Aborted(e) => {
                return (Err(e), count);
            },
        }
    }
}

/// A token that names or skips every index below `m`, and reports `m` as
/// invalid, yields exactly its named slots below `m` in ascending order, after
/// `m + 1` queries: one for each slot, named or not, and one for the end.
pub proof fn lemma_scan_terminates(r: Seq<QueryOutcome>, m: nat)
    requires
        m <= 255,
        forall|j: int| 0 <= j < m ==> continues(#[trigger] reply_at(r, j)),
        reply_at(r, m as int) is InvalidSlot,
    ensures
        scan_from(r, 0) == Ok::<Seq<SlotView>, ScanError>(named_between(r, 0, m)),
        queries_from(r, 0) == m + 1,
{
    lemma_scan_terminates_from(r, 0, m);
}

proof fn lemma_scan_terminates_from(r: Seq<QueryOutcome>, i: nat, m: nat)
    requires
        i <= m <= 255,
        forall|j: int| 0 <= j < m ==> continues(#[trigger] reply_at(r, j)),
        reply_at(r, m as int) is InvalidSlot,
    ensures
        scan_from(r, i) == Ok::<Seq<SlotView>, ScanError>(named_between(r, i, m)),
        queries_from(r, i) == m + 1 - i,
    decreases m - i,
{
    if i < m {
        lemma_scan_terminates_from(r, i + 1, m);
        assert(continues(reply_at(r, i as int)));
    }
}

/// A token that fails at index `k`, after naming or skipping every index
/// below it, makes the whole scan fail with that index and fault: nothing
/// found before is handed out.
pub proof fn lemma_scan_aborts(r: Seq<QueryOutcome>, k: nat, f: DeviceFault)
    requires
        k <= 255,
        forall|j: int| 0 <= j < k ==> continues(#[trigger] reply_at(r, j)),
        reply_at(r, k as int) == QueryOutcome::Failed(f),
    ensures
        scan_from(r, 0) == Err::<Seq<SlotView>, ScanError>(ScanError::Device { index: k as u8, fault: f }),
{
    lemma_scan_aborts_from(r, 0, k, f);
}

proof fn lemma_scan_aborts_from(r: Seq<QueryOutcome>, i: nat, k: nat, f: DeviceFault)
    requires
        i <= k <= 255,
        forall|j: int| 0 <= j < k ==> continues(#[trigger] reply_at(r, j)),
        reply_at(r, k as int) == QueryOutcome::Failed(f),
    ensures
        scan_from(r, i) == Err::<Seq<SlotView>, ScanError>(ScanError::Device { index: k as u8, fault: f }),
    decreases k - i,
{
    if i < k {
        lemma_scan_aborts_from(r, i + 1, k, f);
        assert(continues(reply_at(r, i as int)));
    }
}

} // verus!
