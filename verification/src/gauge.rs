//! The shotgun gauge: for every shot of a clip, how its two bullets ended, and
//! what that earns once both are known.

use vstd::prelude::*;
use crate::bullet::{BulletEndReason, BulletSide, ShotgunBulletEndEvent};

verus! {

/// What a shot's two bullets achieved together.
#[derive(Clone, Copy, Debug, PartialEq, Eq, Structural)]
pub enum PairOutcome {
    /// Both bullets hit an enemy.
    DoubleHit,
    /// Neither bullet hit an enemy.
    DoubleMiss,
    /// The bullet on this side hit an enemy, the other did not.
    SingleHit(BulletSide),
}

/// How the two bullets of one shot ended: `Some(true)` for a hit on an enemy,
/// `Some(false)` for a miss, `None` while the bullet is still in flight.
#[derive(Clone, Copy, Debug, PartialEq, Eq, Structural)]
pub struct HitPair {
    pub left: Option<bool>,
    pub right: Option<bool>,
}

impl HitPair {
    /// The pair of a shot whose bullets are both still in flight.
    pub open spec fn empty() -> HitPair {
        HitPair { left: None, right: None }
    }

    /// Whether both bullets have ended.
    pub open spec fn settled(self) -> bool {
        self.left is Some && self.right is Some
    }

    /// What the shot achieved, once both bullets have ended.
    pub open spec fn outcome(self) -> Option<PairOutcome> {
        match (self.left, self.right) {
            (Some(true), Some(true)) => Some(PairOutcome::DoubleHit),
            (Some(false), Some(false)) => Some(PairOutcome::DoubleMiss),
            (Some(true), Some(false)) => Some(PairOutcome::SingleHit(BulletSide::Left)),
            (Some(false), Some(true)) => Some(PairOutcome::SingleHit(BulletSide::Right)),
            _ => None,
        }
    }

    /// The pair with the end of the `side` bullet written down.
    pub open spec fn with(self, side: BulletSide, hit: bool) -> HitPair {
        match side {
            BulletSide::Left => HitPair { left: Some(hit), right: self.right },
            BulletSide::Right => HitPair { left: self.left, right: Some(hit) },
        }
    }

    /// The pair of a shot whose bullets are both still in flight.
    pub fn new() -> (pair: HitPair)
        ensures
            pair == HitPair::empty(),
    {
        HitPair { left: None, right: None }
    }

    /// What the shot achieved, or `None` while a bullet is still in flight.
    pub fn classify(&self) -> (outcome: Option<PairOutcome>)
        ensures
            outcome == self.outcome(),
            outcome is Some <==> self.settled(),
    {
        match (self.left, self.right) {
            (Some(left), Some(right)) => {
                if left && right {
                    Some(PairOutcome::DoubleHit)
                } else if !left && !right {
                    Some(PairOutcome::DoubleMiss)
                } else if left {
                    Some(PairOutcome::SingleHit(BulletSide::Left))
                } else {
                    Some(PairOutcome::SingleHit(BulletSide::Right))
                }
            },
            _ => None,
        }
    }
}

/// One settled shot, as the gauge reports it.
#[derive(Clone, Copy, Debug, PartialEq, Eq, Structural)]
pub struct PairReport {
    /// The place of the shot within its clip.
    pub shot_number: usize,
    pub outcome: PairOutcome,
}

/// What one reading of the gauge found.
pub struct GaugeReport {
    /// The shots that were settled, in the order of their place in the clip.
    pub pairs: Vec<PairReport>,
    /// How many immediate reloads they earn: one for each double hit.
    pub reloads: usize,
}

/// One [`HitPair`] for every shot of a clip.
pub struct ShotgunGauge {
    hit_pairs: Vec<HitPair>,
}

impl View for ShotgunGauge {
    type V = Seq<HitPair>;

    closed spec fn view(&self) -> Seq<HitPair> {
        self.hit_pairs@
    }
}

/// Whether `reason` counts as a hit for the gauge: only a hit on an enemy does.
pub open spec fn counts_as_hit(reason: BulletEndReason) -> bool {
    reason is HitEnemy
}

/// The pairs after `event` has been written down. Of an event for a shot
/// that the gauge has no place for, which nobody may hand in, nothing is
/// written down.
pub open spec fn recorded(pairs: Seq<HitPair>, event: ShotgunBulletEndEvent) -> Seq<HitPair> {
    if event.shot_number < pairs.len() {
        pairs.update(
            event.shot_number as int,
            pairs[event.shot_number as int].with(event.side, counts_as_hit(event.reason)),
        )
    } else {
        pairs
    }
}

/// The pairs after all of `events` have been written down, in order.
pub open spec fn recorded_all(pairs: Seq<HitPair>, events: Seq<ShotgunBulletEndEvent>) -> Seq<
    HitPair,
>
    decreases events.len(),
{
    if events.len() == 0 {
        pairs
    } else {
        recorded(recorded_all(pairs, events.drop_last()), events.last())
    }
}

/// Whether the gauge has a place for every shot that `events` speak of.
pub open spec fn in_range(len: nat, events: Seq<ShotgunBulletEndEvent>) -> bool {
    forall|i: int| 0 <= i < events.len() ==> (#[trigger] events[i]).shot_number < len
}

/// The settled shots among `pairs`, in the order of their place in the clip.
pub open spec fn settled_pairs(pairs: Seq<HitPair>) -> Seq<PairReport>
    decreases pairs.len(),
{
    if pairs.len() == 0 {
        Seq::empty()
    } else {
        let before = settled_pairs(pairs.drop_last());
        match pairs.last().outcome() {
            Some(outcome) => before.push(
                PairReport { shot_number: (pairs.len() - 1) as usize, outcome },
            ),
            None => before,
        }
    }
}

/// How many of `pairs` are double hits.
pub open spec fn double_hits(pairs: Seq<HitPair>) -> nat
    decreases pairs.len(),
{
    if pairs.len() == 0 {
        0
    } else {
        double_hits(pairs.drop_last()) + if pairs.last().outcome() == Some(
            PairOutcome::DoubleHit,
        ) {
            1nat
        } else {
            0nat
        }
    }
}

/// The pairs after a reading: every settled pair is empty again, every other
/// pair is as it was.
pub open spec fn swept(pairs: Seq<HitPair>) -> Seq<HitPair> {
    Seq::new(
        pairs.len(),
        |i: int|
            if pairs[i].settled() {
                HitPair::empty()
            } else {
                pairs[i]
            },
    )
}

/// What a shot achieves whose left bullet ends for `left` and whose right
/// bullet ends for `right`.
pub open spec fn outcome_of(left: BulletEndReason, right: BulletEndReason) -> PairOutcome {
    if counts_as_hit(left) && counts_as_hit(right) {
        PairOutcome::DoubleHit
    } else if counts_as_hit(left) {
        PairOutcome::SingleHit(BulletSide::Left)
    } else if counts_as_hit(right) {
        PairOutcome::SingleHit(BulletSide::Right)
    } else {
        PairOutcome::DoubleMiss
    }
}

/// Once both bullets of a shot have ended, in either order, its pair is
/// settled, and what it achieved is a double hit if both hit an enemy, a
/// double miss if neither did, and a single hit otherwise: a wall or a
/// lifetime that ran out is a miss.
pub proof fn lemma_both_ends_settle(
    pairs: Seq<HitPair>,
    shot_number: u32,
    left: BulletEndReason,
    right: BulletEndReason,
)
    requires
        shot_number < pairs.len(),
    ensures
        ({
            let l = ShotgunBulletEndEvent { side: BulletSide::Left, shot_number, reason: left };
            let r = ShotgunBulletEndEvent { side: BulletSide::Right, shot_number, reason: right };
            let after = recorded(recorded(pairs, l), r);
            &&& after == recorded(recorded(pairs, r), l)
            &&& after == pairs.update(
                shot_number as int,
                HitPair { left: Some(counts_as_hit(left)), right: Some(counts_as_hit(right)) },
            )
            &&& after[shot_number as int].outcome() == Some(outcome_of(left, right))
        }),
        outcome_of(left, right) == PairOutcome::DoubleHit <==> left is HitEnemy && right
            is HitEnemy,
        outcome_of(left, right) == PairOutcome::DoubleMiss <==> left !is HitEnemy && right
            !is HitEnemy,
{
    let l = ShotgunBulletEndEvent { side: BulletSide::Left, shot_number, reason: left };
    let r = ShotgunBulletEndEvent { side: BulletSide::Right, shot_number, reason: right };
    assert(recorded(recorded(pairs, l), r) =~= pairs.update(
        shot_number as int,
        HitPair { left: Some(counts_as_hit(left)), right: Some(counts_as_hit(right)) },
    ));
}

/// A gauge in which one shot at most is settled reports that shot alone, and
/// grants one immediate reload if it is a double hit and none otherwise.
pub proof fn lemma_lone_pair(pairs: Seq<HitPair>, shot_number: int)
    requires
        0 <= shot_number < pairs.len(),
        forall|j: int| 0 <= j < pairs.len() && j != shot_number ==> !(#[trigger] pairs[j]).settled(),
    ensures
        settled_pairs(pairs) == match pairs[shot_number].outcome() {
            Some(outcome) => seq![PairReport { shot_number: shot_number as usize, outcome }],
            None => Seq::empty(),
        },
        double_hits(pairs) == if pairs[shot_number].outcome() == Some(PairOutcome::DoubleHit) {
            1nat
        } else {
            0nat
        },
    decreases pairs.len(),
{
    let before = pairs.drop_last();
    if shot_number == pairs.len() - 1 {
        lemma_none_settled(before);
        assert(Seq::<PairReport>::empty().push(
            PairReport {
                shot_number: shot_number as usize,
                outcome: pairs[shot_number].outcome().unwrap(),
            },
        ) =~= seq![
            PairReport {
                shot_number: shot_number as usize,
                outcome: pairs[shot_number].outcome().unwrap(),
            },
        ]);
    } else {
        lemma_lone_pair(before, shot_number);
    }
}

/// When the two bullets of a shot end, in either order, with no other shot
/// settled, the reading reports that shot alone, and grants one immediate
/// reload if both bullets hit an enemy and none otherwise.
pub proof fn lemma_pair_earns_reload(
    pairs: Seq<HitPair>,
    shot_number: u32,
    left: BulletEndReason,
    right: BulletEndReason,
)
    requires
        shot_number < pairs.len(),
        forall|j: int|
            0 <= j < pairs.len() && j != shot_number ==> !(#[trigger] pairs[j]).settled(),
    ensures
        ({
            let l = ShotgunBulletEndEvent { side: BulletSide::Left, shot_number, reason: left };
            let r = ShotgunBulletEndEvent { side: BulletSide::Right, shot_number, reason: right };
            let read = recorded_all(pairs, seq![l, r]);
            &&& read == recorded_all(pairs, seq![r, l])
            &&& settled_pairs(read) == seq![
                PairReport { shot_number: shot_number as usize, outcome: outcome_of(left, right) },
            ]
            &&& double_hits(read) == if left is HitEnemy && right is HitEnemy {
                1nat
            } else {
                0nat
            }
            &&& swept(read)[shot_number as int] == HitPair::empty()
        }),
{
    let l = ShotgunBulletEndEvent { side: BulletSide::Left, shot_number, reason: left };
    let r = ShotgunBulletEndEvent { side: BulletSide::Right, shot_number, reason: right };
    lemma_recorded_two(pairs, l, r);
    lemma_recorded_two(pairs, r, l);
    lemma_both_ends_settle(pairs, shot_number, left, right);
    lemma_lone_pair(recorded_all(pairs, seq![l, r]), shot_number as int);
}

/// Two events are written down one after the other.
pub proof fn lemma_recorded_two(
    pairs: Seq<HitPair>,
    first: ShotgunBulletEndEvent,
    second: ShotgunBulletEndEvent,
)
    ensures
        recorded_all(pairs, seq![first, second]) == recorded(recorded(pairs, first), second),
{
    let both = seq![first, second];
    assert(both.drop_last() == seq![first]);
    assert(recorded_all(pairs, seq![first].drop_last()) == pairs);
    assert(recorded_all(pairs, seq![first]) == recorded(pairs, first));
}

/// A gauge in which no shot is settled reports nothing and grants nothing.
pub proof fn lemma_none_settled(pairs: Seq<HitPair>)
    requires
        forall|j: int| 0 <= j < pairs.len() ==> !(#[trigger] pairs[j]).settled(),
    ensures
        settled_pairs(pairs) == Seq::<PairReport>::empty(),
        double_hits(pairs) == 0,
    decreases pairs.len(),
{
    if pairs.len() > 0 {
        lemma_none_settled(pairs.drop_last());
    }
}

/// A reading leaves nothing to read: after it no pair is settled, so a
/// second reading reports nothing, grants no reload and changes nothing.
pub proof fn lemma_reading_is_final(pairs: Seq<HitPair>)
    ensures
        forall|j: int| 0 <= j < pairs.len() ==> !(#[trigger] swept(pairs)[j]).settled(),
        settled_pairs(swept(pairs)) == Seq::<PairReport>::empty(),
        double_hits(swept(pairs)) == 0,
        swept(swept(pairs)) == swept(pairs),
{
    lemma_none_settled(swept(pairs));
}

/// The reloads that a reading grants are the double hits among the shots it
/// reports, and there is one report for each settled pair.
pub proof fn lemma_reloads_are_double_hits(pairs: Seq<HitPair>)
    requires
        pairs.len() <= usize::MAX,
    ensures
        double_hits(pairs) == settled_pairs(pairs).filter(
            |r: PairReport| r.outcome == PairOutcome::DoubleHit,
        ).len(),
        double_hits(pairs) <= settled_pairs(pairs).len() <= pairs.len(),
        forall|k: int|
            0 <= k < settled_pairs(pairs).len() ==> {
                let r = #[trigger] settled_pairs(pairs)[k];
                r.shot_number < pairs.len() && pairs[r.shot_number as int].outcome() == Some(
                    r.outcome,
                )
            },
    decreases pairs.len(),
{
    if pairs.len() > 0 {
        let before = pairs.drop_last();
        lemma_reloads_are_double_hits(before);
        if pairs.last().settled() {
            assert(settled_pairs(pairs).drop_last() == settled_pairs(before));
            reveal(Seq::filter);
        }
    }
}

impl ShotgunGauge {
    /// A gauge for clips of `size` shots, with every pair empty.
    pub fn new(size: usize) -> (gauge: ShotgunGauge)
        ensures
            gauge@.len() == size,
            forall|i: int| 0 <= i < size ==> #[trigger] gauge@[i] == HitPair::empty(),
    {
        let mut hit_pairs: Vec<HitPair> = Vec::new();
        let mut i: usize = 0;
        while i < size
            invariant
                i <= size,
                hit_pairs@.len() == i,
                forall|k: int| 0 <= k < i ==> #[trigger] hit_pairs@[k] == HitPair::empty(),
            decreases size - i,
        {
            hit_pairs.push(HitPair::new());
            i += 1;
        }
        ShotgunGauge { hit_pairs }
    }

    /// The number of shots the gauge has a place for.
    pub fn len(&self) -> (n: usize)
        ensures
            n == self@.len(),
    {
        self.hit_pairs.len()
    }

    /// The pair of shot `shot_number`.
    pub fn pair(&self, shot_number: usize) -> (pair: Option<HitPair>)
        ensures
            pair == if shot_number < self@.len() {
                Some(self@[shot_number as int])
            } else {
                None
            },
    {
        if shot_number < self.hit_pairs.len() {
            Some(self.hit_pairs[shot_number])
        } else {
            None
        }
    }

    /// Empties the pair of shot `shot_number`, as a new shot in that place
    /// must before its bullets can end.
    pub fn reset(&mut self, shot_number: usize)
        requires
            shot_number < old(self)@.len(),
        ensures
            final(self)@ == old(self)@.update(shot_number as int, HitPair::empty()),
    {
        self.hit_pairs[shot_number] = HitPair::new();
    }

    /// Writes down how one bullet ended.
    pub fn record(&mut self, event: &ShotgunBulletEndEvent)
        requires
            event.shot_number < old(self)@.len(),
        ensures
            final(self)@ == recorded(old(self)@, *event),
    {
        let hit = match event.reason {
            BulletEndReason::HitEnemy => true,
            BulletEndReason::Expired | BulletEndReason::HitWall => false,
        };
        let index = event.shot_number as usize;
        match event.side {
            BulletSide::Left => {
                self.hit_pairs[index].left = Some(hit);
            },
            BulletSide::Right => {
                self.hit_pairs[index].right = Some(hit);
            },
        }
    }
}

/// Writes down in the gauge how the bullets of `events` ended, in order.
pub fn shotgun_check_shots(gauge: &mut ShotgunGauge, events: &Vec<ShotgunBulletEndEvent>)
    requires
        in_range(old(gauge)@.len(), events@),
    ensures
        final(gauge)@ == recorded_all(old(gauge)@, events@),
        final(gauge)@.len() == old(gauge)@.len(),
{
    let n: usize = events.len();
    let mut i: usize = 0;
    while i < n
        invariant
            i <= n,
            n == events@.len(),
            gauge@.len() == old(gauge)@.len(),
            in_range(old(gauge)@.len(), events@),
            gauge@ == recorded_all(old(gauge)@, events@.take(i as int)),
        decreases n - i,
    {
        assert(events@.take(i + 1).drop_last() == events@.take(i as int));
        gauge.record(&events[i]);
        i += 1;
    }
    assert(events@.take(n as int) == events@);
}

/// Reads the gauge: reports every settled shot with what it achieved, counts
/// one immediate reload for each double hit, and empties the settled pairs
/// so that none is reported twice.
pub fn shotgun_check_gauge(gauge: &mut ShotgunGauge) -> (report: GaugeReport)
    ensures
        report.pairs@ == settled_pairs(old(gauge)@),
        report.reloads == double_hits(old(gauge)@),
        final(gauge)@ == swept(old(gauge)@),
{
    let mut pairs: Vec<PairReport> = Vec::new();
    let mut reloads: usize = 0;
    let n: usize = gauge.hit_pairs.len();
    let mut i: usize = 0;
    while i < n
        invariant
            i <= n,
            n == gauge@.len(),
            n == old(gauge)@.len(),
            pairs@ == settled_pairs(old(gauge)@.take(i as int)),
            reloads == double_hits(old(gauge)@.take(i as int)),
            reloads <= i,
            forall|k: int| 0 <= k < i ==> #[trigger] gauge@[k] == swept(old(gauge)@)[k],
            forall|k: int| i <= k < n ==> #[trigger] gauge@[k] == old(gauge)@[k],
        decreases n - i,
    {
        assert(old(gauge)@.take(i + 1).drop_last() == old(gauge)@.take(i as int));
        match gauge.hit_pairs[i].classify() {
            Some(outcome) => {
                if outcome == PairOutcome::DoubleHit {
                    reloads += 1;
                }
                pairs.push(PairReport { shot_number: i, outcome });
                gauge.hit_pairs[i] = HitPair::new();
            },
            None => {},
        }
        i += 1;
    }
    assert(old(gauge)@.take(n as int) == old(gauge)@);
    GaugeReport { pairs, reloads }
}

} // verus!
