//! `UITouch`: the touches in progress, one per finger, and their phases.
//! Delivering touches to views happens around this library.
use vstd::prelude::*;

verus! {

pub type UITouchPhase = i32;
pub const UITouchPhaseBegan: UITouchPhase = 0;
pub const UITouchPhaseMoved: UITouchPhase = 1;
pub const UITouchPhaseStationary: UITouchPhase = 2;
pub const UITouchPhaseEnded: UITouchPhase = 3;

/// A touch in progress.
#[derive(Copy, Clone, Debug, PartialEq, Eq, Structural)]
pub struct TouchRecord {
    pub finger: u64,
    /// The `UITouch` object.
    pub touch: u32,
    pub phase: UITouchPhase,
}

/// Index of the touch of `finger`, if any.
pub open spec fn finger_index(touches: Seq<TouchRecord>, finger: u64) -> Option<int> {
    if exists|i: int| 0 <= i < touches.len() && #[trigger] touches[i].finger == finger {
        Some(choose|i: int| 0 <= i < touches.len() && #[trigger] touches[i].finger == finger)
    } else {
        None
    }
}

/// The touches in progress.
pub struct State {
    current_touches: Vec<TouchRecord>,
}

impl State {
    pub closed spec fn touches(&self) -> Seq<TouchRecord> {
        self.current_touches@
    }

    /// No finger has two touches.
    pub open spec fn wf(&self) -> bool {
        forall|i: int, j: int|
            0 <= i < j < self.touches().len() ==> #[trigger] self.touches()[i].finger
                != #[trigger] self.touches()[j].finger
    }

    /// No touches.
    pub fn new() -> (s: State)
        ensures
            s.wf(),
            s.touches().len() == 0,
    {
        State { current_touches: Vec::new() }
    }

    /// The start of a touch event: every touch in progress is stationary
    /// until the event says otherwise.
    pub fn mark_stationary(&mut self)
        requires
            old(self).wf(),
        ensures
            final(self).wf(),
            final(self).touches().len() == old(self).touches().len(),
            forall|i: int|
                0 <= i < final(self).touches().len() ==> #[trigger] final(self).touches()[i]
                    == (TouchRecord { phase: UITouchPhaseStationary, ..old(self).touches()[i] }),
    {
        let mut i: usize = 0;
        while i < self.current_touches.len()
            invariant
                i <= self.current_touches@.len(),
                self.current_touches@.len() == old(self).touches().len(),
                forall|j: int|
                    0 <= j < i ==> #[trigger] self.current_touches@[j] == (TouchRecord {
                        phase: UITouchPhaseStationary,
                        ..old(self).touches()[j]
                    }),
                forall|j: int|
                    i <= j < self.current_touches@.len() ==> #[trigger] self.current_touches@[j]
                        == old(self).touches()[j],
            decreases self.current_touches@.len() - i,
        {
            let r = self.current_touches[i];
            self.current_touches.set(i, TouchRecord { phase: UITouchPhaseStationary, ..r });
            i = i + 1;
        }
    }

    fn index_of(&self, finger: u64) -> (idx: Option<usize>)
        requires
            self.wf(),
        ensures
            match idx {
                Some(i) => finger_index(self.touches(), finger) == Some(i as int) && i
                    < self.touches().len(),
                None => finger_index(self.touches(), finger) is None,
            },
    {
        let mut i: usize = 0;
        while i < self.current_touches.len()
            invariant
                self.wf(),
                i <= self.current_touches@.len(),
                forall|j: int| 0 <= j < i ==> #[trigger] self.current_touches@[j].finger != finger,
            decreases self.current_touches@.len() - i,
        {
            if self.current_touches[i].finger == finger {
                proof {
                    let k = choose|k: int| 0 <= k < self.touches().len() && #[trigger] self.touches()[k].finger == finger;
                    if k != i {
                        if k < i {
                            assert(self.touches()[k].finger != self.touches()[i as int].finger);
                        } else {
                            assert(self.touches()[i as int].finger != self.touches()[k].finger);
                        }
                    }
                }
                return Some(i);
            }
            i = i + 1;
        }
        None
    }

    /// The touch of `finger`, if one is in progress.
    pub fn touch_for(&self, finger: u64) -> (touch: Option<u32>)
        requires
            self.wf(),
        ensures
            touch == match finger_index(self.touches(), finger) {
                Some(i) => Some(self.touches()[i].touch),
                None => None,
            },
    {
        match self.index_of(finger) {
            Some(i) => Some(self.current_touches[i].touch),
            None => None,
        }
    }

    /// The touch objects in progress.
    pub fn all_touches(&self) -> (out: Vec<u32>)
        ensures
            out@.len() == self.touches().len(),
            forall|i: int| 0 <= i < out@.len() ==> #[trigger] out@[i] == self.touches()[i].touch,
    {
        let mut out: Vec<u32> = Vec::new();
        let mut i: usize = 0;
        while i < self.current_touches.len()
            invariant
                i <= self.current_touches@.len(),
                out@.len() == i,
                forall|j: int| 0 <= j < i ==> #[trigger] out@[j] == self.touches()[j].touch,
            decreases self.current_touches@.len() - i,
        {
            out.push(self.current_touches[i].touch);
            i = i + 1;
        }
        out
    }

    /// A finger goes down: its new touch `touch` begins.
    pub fn touch_down(&mut self, finger: u64, touch: u32)
        requires
            old(self).wf(),
            finger_index(old(self).touches(), finger) is None,
        ensures
            final(self).wf(),
            final(self).touches() == old(self).touches().push(
                TouchRecord { finger, touch, phase: UITouchPhaseBegan },
            ),
    {
        self.current_touches.push(TouchRecord { finger, touch, phase: UITouchPhaseBegan });
        proof {
            let t = self.touches();
            assert forall|i: int, j: int|
                0 <= i < j < t.len() implies #[trigger] t[i].finger != #[trigger] t[j].finger by {
                if j == t.len() - 1 {
                    assert(old(self).touches()[i].finger != finger);
                } else {
                    assert(t[i] == old(self).touches()[i] && t[j] == old(self).touches()[j]);
                }
            }
        }
    }

    /// A finger moves. Returns its touch, which is now moving, or `None` if
    /// the finger has no touch or did not change position.
    pub fn touch_move(&mut self, finger: u64, changed_position: bool) -> (touch: Option<u32>)
        requires
            old(self).wf(),
            changed_position && finger_index(old(self).touches(), finger) is Some ==> old(
                self,
            ).touches()[finger_index(old(self).touches(), finger).unwrap()].phase
                == UITouchPhaseStationary,
        ensures
            final(self).wf(),
            match finger_index(old(self).touches(), finger) {
                Some(i) if changed_position => {
                    &&& touch == Some(old(self).touches()[i].touch)
                    &&& final(self).touches() == old(self).touches().update(
                        i,
                        TouchRecord { phase: UITouchPhaseMoved, ..old(self).touches()[i] },
                    )
                },
                _ => touch is None && final(self).touches() == old(self).touches(),
            },
    {
        if !changed_position {
            return None;
        }
        match self.index_of(finger) {
            Some(i) => {
                let r = self.current_touches[i];
                self.current_touches.set(i, TouchRecord { phase: UITouchPhaseMoved, ..r });
                proof {
                    let t = self.touches();
                    assert forall|a: int, b: int|
                        0 <= a < b < t.len() implies #[trigger] t[a].finger != #[trigger] t[b].finger by {
                        assert(old(self).touches()[a].finger != old(self).touches()[b].finger);
                    }
                }
                Some(r.touch)
            },
            None => None,
        }
    }

    /// A finger is lifted. Returns its touch, which has ended and is no
    /// longer in progress, or `None` if the finger has no touch.
    pub fn touch_up(&mut self, finger: u64) -> (touch: Option<u32>)
        requires
            old(self).wf(),
            finger_index(old(self).touches(), finger) is Some ==> old(self).touches()[finger_index(
                old(self).touches(),
                finger,
            ).unwrap()].phase == UITouchPhaseStationary,
        ensures
            final(self).wf(),
            match finger_index(old(self).touches(), finger) {
                Some(i) => {
                    &&& touch == Some(old(self).touches()[i].touch)
                    &&& final(self).touches() == old(self).touches().remove(i)
                },
                None => touch is None && final(self).touches() == old(self).touches(),
            },
    {
        match self.index_of(finger) {
            Some(i) => {
                let r = self.current_touches.remove(i);
                proof {
                    let t = self.touches();
                    let o = old(self).touches();
                    assert(t =~= o.remove(i as int));
                    assert forall|a: int, b: int|
                        0 <= a < b < t.len() implies #[trigger] t[a].finger != #[trigger] t[b].finger by {
                        let oa = if a < i { a } else { a + 1 };
                        let ob = if b < i { b } else { b + 1 };
                        assert(t[a] == o[oa] && t[b] == o[ob]);
                        assert(o[oa].finger != o[ob].finger);
                    }
                }
                Some(r.touch)
            },
            None => None,
        }
    }
}


/// Every touch in `t`, stationary.
pub open spec fn stationary(t: Seq<TouchRecord>) -> Seq<TouchRecord> {
    Seq::new(t.len(), |i: int| TouchRecord { phase: UITouchPhaseStationary, ..t[i] })
}

/// No finger occurs twice in `fingers`.
pub open spec fn distinct_fingers(fingers: Seq<u64>) -> bool {
    forall|i: int, j: int| 0 <= i < j < fingers.len() ==> fingers[i] != fingers[j]
}

/// A touch event from the window.
pub enum TouchEvent {
    /// Fingers went down. Each comes with a new `UITouch` object made for it,
    /// and whether its position differs from that of the finger's touch in
    /// progress, if it has one.
    Down(Vec<(u64, u32, bool)>),
    /// Fingers moved, each with whether its position changed.
    Move(Vec<(u64, bool)>),
    /// Fingers were lifted.
    Up(Vec<u64>),
}

/// The fingers of a touch event.
pub open spec fn event_fingers(event: TouchEvent) -> Seq<u64> {
    match event {
        TouchEvent::Down(v) => Seq::new(v@.len(), |i: int| v@[i].0),
        TouchEvent::Move(v) => Seq::new(v@.len(), |i: int| v@[i].0),
        TouchEvent::Up(v) => v@,
    }
}

/// The touches that a touch event changed, to be delivered to their views.
pub enum TouchDelivery {
    /// These touches began (`touchesBegan:withEvent:`).
    Began(Vec<u32>),
    /// These touches moved (`touchesMoved:withEvent:`).
    Moved(Vec<u32>),
    /// These touches ended (`touchesEnded:withEvent:`).
    Ended(Vec<u32>),
}

/// Whether `finger` is among the `moves` that changed position.
pub open spec fn moved_in(moves: Seq<(u64, bool)>, finger: u64) -> bool {
    exists|j: int| 0 <= j < moves.len() && #[trigger] moves[j].0 == finger && moves[j].1
}

/// The touches, in `t`, of the fingers in `moves` that changed position,
/// in the order of `moves`.
pub open spec fn moved_touches(t: Seq<TouchRecord>, moves: Seq<(u64, bool)>) -> Seq<u32>
    decreases moves.len(),
{
    if moves.len() == 0 {
        seq![]
    } else {
        let rest = moved_touches(t, moves.drop_last());
        match finger_index(t, moves.last().0) {
            Some(i) => if moves.last().1 {
                rest.push(t[i].touch)
            } else {
                rest
            },
            None => rest,
        }
    }
}

/// The touches in progress and the ended touches after lifting the
/// fingers `ups` one by one, starting from the touches `t`.
pub open spec fn apply_ups(t: Seq<TouchRecord>, ups: Seq<u64>) -> (Seq<TouchRecord>, Seq<u32>)
    decreases ups.len(),
{
    if ups.len() == 0 {
        (t, seq![])
    } else {
        let (t0, ended) = apply_ups(t, ups.drop_last());
        match finger_index(t0, ups.last()) {
            Some(i) => (t0.remove(i), ended.push(t0[i].touch)),
            None => (t0, ended),
        }
    }
}

/// The new touches for the fingers `downs`.
pub open spec fn began_records(downs: Seq<(u64, u32, bool)>) -> Seq<TouchRecord> {
    Seq::new(
        downs.len(),
        |i: int| TouchRecord { finger: downs[i].0, touch: downs[i].1, phase: UITouchPhaseBegan },
    )
}

/// The first of `downs`, from the `k`-th on, whose finger already has a
/// touch in `t`.
pub open spec fn first_already_down(t: Seq<TouchRecord>, downs: Seq<(u64, u32, bool)>, k: int) -> Option<int>
    decreases downs.len() - k,
{
    if k < 0 || k >= downs.len() {
        None
    } else if finger_index(t, downs[k].0) is Some {
        Some(k)
    } else {
        first_already_down(t, downs, k + 1)
    }
}

proof fn lemma_finger_index_unique(t: Seq<TouchRecord>, finger: u64, i: int)
    requires
        forall|a: int, b: int| 0 <= a < b < t.len() ==> #[trigger] t[a].finger != #[trigger] t[b].finger,
        0 <= i < t.len(),
        t[i].finger == finger,
    ensures
        finger_index(t, finger) == Some(i),
{
    assert(t[i].finger == finger);
    let k = choose|k: int| 0 <= k < t.len() && #[trigger] t[k].finger == finger;
    if k != i {
        if k < i {
            assert(t[k].finger != t[i].finger);
        } else {
            assert(t[i].finger != t[k].finger);
        }
    }
}

proof fn lemma_first_already_down_none(t: Seq<TouchRecord>, downs: Seq<(u64, u32, bool)>, k: int)
    requires
        0 <= k <= downs.len(),
        forall|j: int| k <= j < downs.len() ==> finger_index(t, #[trigger] downs[j].0) is None,
    ensures
        first_already_down(t, downs, k) is None,
    decreases downs.len() - k,
{
    if k < downs.len() {
        lemma_first_already_down_none(t, downs, k + 1);
    }
}

proof fn lemma_first_already_down_some(t: Seq<TouchRecord>, downs: Seq<(u64, u32, bool)>, k: int, m: int)
    requires
        0 <= k <= m < downs.len(),
        forall|j: int| k <= j < m ==> finger_index(t, #[trigger] downs[j].0) is None,
        finger_index(t, downs[m].0) is Some,
    ensures
        first_already_down(t, downs, k) == Some(m),
    decreases m - k,
{
    if k < m {
        lemma_first_already_down_some(t, downs, k + 1, m);
    }
}

impl State {
    /// Handles a touch event: every touch in progress becomes stationary,
    /// then the event's fingers are handled in order. For `Down`, each
    /// finger's new touch begins, unless the finger already has a touch:
    /// then the event is handled as a move of that finger alone, and the
    /// fingers after it are not looked at. For `Move`, the touch of each
    /// finger that changed position moves. For `Up`, each finger's touch
    /// ends. Returns the touches to deliver to views. A window reports each
    /// finger once per event.
    pub fn handle_event(&mut self, event: &TouchEvent) -> (d: TouchDelivery)
        requires
            old(self).wf(),
            distinct_fingers(event_fingers(*event)),
        ensures
            final(self).wf(),
            ({
                let s = stationary(old(self).touches());
                match *event {
                    TouchEvent::Down(downs) => match first_already_down(s, downs@, 0) {
                        None => {
                            &&& final(self).touches() == s + began_records(downs@)
                            &&& d matches TouchDelivery::Began(b) && b@ == Seq::new(
                                downs@.len(),
                                |i: int| downs@[i].1,
                            )
                        },
                        Some(k) => {
                            let i = finger_index(s, downs@[k].0).unwrap();
                            let grown = s + began_records(downs@.take(k));
                            if downs@[k].2 {
                                &&& final(self).touches() == grown.update(
                                    i,
                                    TouchRecord { phase: UITouchPhaseMoved, ..grown[i] },
                                )
                                &&& d matches TouchDelivery::Moved(m) && m@ == seq![s[i].touch]
                            } else {
                                &&& final(self).touches() == grown
                                &&& d matches TouchDelivery::Moved(m) && m@.len() == 0
                            }
                        },
                    },
                    TouchEvent::Move(moves) => {
                        &&& final(self).touches().len() == s.len()
                        &&& forall|i: int|
                            0 <= i < s.len() ==> #[trigger] final(self).touches()[i] == (TouchRecord {
                                phase: if moved_in(moves@, s[i].finger) {
                                    UITouchPhaseMoved
                                } else {
                                    UITouchPhaseStationary
                                },
                                ..s[i]
                            })
                        &&& d matches TouchDelivery::Moved(m) && m@ == moved_touches(s, moves@)
                    },
                    TouchEvent::Up(ups) => {
                        &&& final(self).touches() == apply_ups(s, ups@).0
                        &&& d matches TouchDelivery::Ended(e) && e@ == apply_ups(s, ups@).1
                    },
                }
            }),
    {
        self.mark_stationary();
        proof {
            assert(self.touches() =~= stationary(old(self).touches()));
        }
        match event {
            TouchEvent::Down(downs) => {
                assert forall|a: int, b: int| 0 <= a < b < downs@.len() implies downs@[a].0
                    != downs@[b].0 by {
                    assert(event_fingers(*event)[a] == downs@[a].0);
                    assert(event_fingers(*event)[b] == downs@[b].0);
                }
                self.handle_downs(downs)
            },
            TouchEvent::Move(moves) => {
                assert forall|a: int, b: int| 0 <= a < b < moves@.len() implies moves@[a].0
                    != moves@[b].0 by {
                    assert(event_fingers(*event)[a] == moves@[a].0);
                    assert(event_fingers(*event)[b] == moves@[b].0);
                }
                self.handle_moves(moves)
            },
            TouchEvent::Up(ups) => self.handle_ups(ups),
        }
    }

    /// Begins a touch for each of the fingers `downs`, until one that already
    /// has a touch, which is moved instead.
    fn handle_downs(&mut self, downs: &Vec<(u64, u32, bool)>) -> (d: TouchDelivery)
        requires
            old(self).wf(),
            forall|i: int|
                0 <= i < old(self).touches().len() ==> #[trigger] old(self).touches()[i].phase
                    == UITouchPhaseStationary,
            forall|a: int, b: int| 0 <= a < b < downs@.len() ==> downs@[a].0 != downs@[b].0,
        ensures
            final(self).wf(),
            match first_already_down(old(self).touches(), downs@, 0) {
                None => {
                    &&& final(self).touches() == old(self).touches() + began_records(downs@)
                    &&& d matches TouchDelivery::Began(b) && b@ == Seq::new(
                        downs@.len(),
                        |i: int| downs@[i].1,
                    )
                },
                Some(k) => {
                    let i = finger_index(old(self).touches(), downs@[k].0).unwrap();
                    let grown = old(self).touches() + began_records(downs@.take(k));
                    if downs@[k].2 {
                        &&& final(self).touches() == grown.update(
                            i,
                            TouchRecord { phase: UITouchPhaseMoved, ..grown[i] },
                        )
                        &&& d matches TouchDelivery::Moved(m) && m@ == seq![old(self).touches()[i].touch]
                    } else {
                        &&& final(self).touches() == grown
                        &&& d matches TouchDelivery::Moved(m) && m@.len() == 0
                    }
                },
            },
    {
        let ghost t0 = self.touches();
        let mut began: Vec<u32> = Vec::new();
        let mut k: usize = 0;
        assert(self.touches() =~= t0 + began_records(downs@.take(0)));
        while k < downs.len()
            invariant
                self.wf(),
                t0 == old(self).touches(),
                forall|a: int, b: int| 0 <= a < b < t0.len() ==> #[trigger] t0[a].finger != #[trigger] t0[b].finger,
                forall|i: int| 0 <= i < t0.len() ==> #[trigger] t0[i].phase == UITouchPhaseStationary,
                forall|a: int, b: int| 0 <= a < b < downs@.len() ==> downs@[a].0 != downs@[b].0,
                k <= downs@.len(),
                forall|j: int| 0 <= j < k ==> finger_index(t0, #[trigger] downs@[j].0) is None,
                self.touches() == t0 + began_records(downs@.take(k as int)),
                began@ == Seq::new(k as nat, |i: int| downs@[i].1),
            decreases downs@.len() - k,
        {
            let ghost before = self.touches();
            let (f, touch, changed) = downs[k];
            match self.index_of(f) {
                Some(i) => {
                    proof {
                        if i >= t0.len() {
                            let j = i - t0.len();
                            assert(before[i as int] == began_records(downs@.take(k as int))[j]);
                            assert(downs@[j].0 == f);
                        }
                        assert(before[i as int] == t0[i as int]);
                        lemma_finger_index_unique(t0, f, i as int);
                        lemma_first_already_down_some(t0, downs@, 0, k as int);
                        assert(before =~= t0 + began_records(downs@.take(k as int)));
                    }
                    let r = self.touch_move(f, changed);
                    let moved: Vec<u32> = match r {
                        Some(t) => vec![t],
                        None => vec![],
                    };
                    proof {
                        if changed {
                            assert(moved@ =~= seq![t0[i as int].touch]);
                        }
                    }
                    return TouchDelivery::Moved(moved);
                },
                None => {
                    proof {
                        assert forall|x: int| 0 <= x < t0.len() implies #[trigger] t0[x].finger != f by {
                            if t0[x].finger == f {
                                assert(before[x] == t0[x]);
                            }
                        }
                        assert(finger_index(t0, f) is None);
                    }
                    self.touch_down(f, touch);
                    began.push(touch);
                    proof {
                        assert(self.touches() =~= t0 + began_records(downs@.take(k + 1)));
                        assert(began@ =~= Seq::new((k + 1) as nat, |i: int| downs@[i].1));
                    }
                },
            }
            k = k + 1;
        }
        proof {
            lemma_first_already_down_none(t0, downs@, 0);
            assert(downs@.take(downs@.len() as int) =~= downs@);
        }
        TouchDelivery::Began(began)
    }

    /// Moves the fingers `moves` that changed position, one after the other.
    fn handle_moves(&mut self, moves: &Vec<(u64, bool)>) -> (d: TouchDelivery)
        requires
            old(self).wf(),
            forall|i: int|
                0 <= i < old(self).touches().len() ==> #[trigger] old(self).touches()[i].phase
                    == UITouchPhaseStationary,
            forall|a: int, b: int| 0 <= a < b < moves@.len() ==> moves@[a].0 != moves@[b].0,
        ensures
            final(self).wf(),
            final(self).touches().len() == old(self).touches().len(),
            forall|i: int|
                0 <= i < old(self).touches().len() ==> #[trigger] final(self).touches()[i] == (TouchRecord {
                    phase: if moved_in(moves@, old(self).touches()[i].finger) {
                        UITouchPhaseMoved
                    } else {
                        UITouchPhaseStationary
                    },
                    ..old(self).touches()[i]
                }),
            d matches TouchDelivery::Moved(m) && m@ == moved_touches(old(self).touches(), moves@),
    {
        let ghost t0 = self.touches();
        let mut moved: Vec<u32> = Vec::new();
        let mut k: usize = 0;
        assert(moves@.take(0) =~= Seq::<(u64, bool)>::empty());
        assert forall|i: int| 0 <= i < t0.len() implies #[trigger] self.touches()[i] == (TouchRecord {
            phase: if moved_in(moves@.take(0), t0[i].finger) {
                UITouchPhaseMoved
            } else {
                UITouchPhaseStationary
            },
            ..t0[i]
        }) by {
            assert(t0[i].phase == UITouchPhaseStationary);
            assert(!moved_in(moves@.take(0), t0[i].finger));
        }
        while k < moves.len()
            invariant
                self.wf(),
                t0 == old(self).touches(),
                forall|a: int, b: int| 0 <= a < b < t0.len() ==> #[trigger] t0[a].finger != #[trigger] t0[b].finger,
                forall|i: int| 0 <= i < t0.len() ==> #[trigger] t0[i].phase == UITouchPhaseStationary,
                forall|a: int, b: int| 0 <= a < b < moves@.len() ==> moves@[a].0 != moves@[b].0,
                k <= moves@.len(),
                self.touches().len() == t0.len(),
                forall|i: int|
                    0 <= i < t0.len() ==> #[trigger] self.touches()[i] == (TouchRecord {
                        phase: if moved_in(moves@.take(k as int), t0[i].finger) {
                            UITouchPhaseMoved
                        } else {
                            UITouchPhaseStationary
                        },
                        ..t0[i]
                    }),
                moved@ == moved_touches(t0, moves@.take(k as int)),
            decreases moves@.len() - k,
        {
            let ghost before = self.touches();
            let (f, c) = moves[k];
            let ghost pre = moves@.take(k as int);
            let ghost post = moves@.take(k + 1);
            proof {
                assert(post.drop_last() =~= pre);
                assert(post.last() == moves@[k as int]);
                // `f` has not been seen in this event yet.
                assert(!moved_in(pre, f)) by {
                    if moved_in(pre, f) {
                        let j = choose|j: int| 0 <= j < pre.len() && #[trigger] pre[j].0 == f && pre[j].1;
                        assert(pre[j] == moves@[j]);
                    }
                }
                if let Some(i) = finger_index(before, f) {
                    assert(before[i].finger == f);
                    assert(t0[i].finger == f);
                    lemma_finger_index_unique(t0, f, i);
                } else {
                    assert forall|x: int| 0 <= x < t0.len() implies #[trigger] t0[x].finger != f by {
                        if t0[x].finger == f {
                            assert(before[x].finger == f);
                        }
                    }
                    assert(finger_index(t0, f) is None);
                }
            }
            let r = self.touch_move(f, c);
            if let Some(touch) = r {
                moved.push(touch);
            }
            proof {
                assert forall|x: int| 0 <= x < t0.len() implies #[trigger] self.touches()[x] == (TouchRecord {
                    phase: if moved_in(post, t0[x].finger) {
                        UITouchPhaseMoved
                    } else {
                        UITouchPhaseStationary
                    },
                    ..t0[x]
                }) by {
                    if moved_in(post, t0[x].finger) && !moved_in(pre, t0[x].finger) {
                        let j = choose|j: int| 0 <= j < post.len() && #[trigger] post[j].0 == t0[x].finger && post[j].1;
                        if j < k {
                            assert(pre[j] == post[j]);
                        }
                        assert(before[x].finger == f);
                        lemma_finger_index_unique(before, f, x);
                    }
                    if moved_in(pre, t0[x].finger) {
                        let j = choose|j: int| 0 <= j < pre.len() && #[trigger] pre[j].0 == t0[x].finger && pre[j].1;
                        assert(post[j] == pre[j]);
                    }
                    if !moved_in(post, t0[x].finger) && c {
                        if t0[x].finger == f {
                            assert(post[k as int].0 == t0[x].finger);
                        }
                    }
                }
            }
            k = k + 1;
        }
        assert(moves@.take(moves@.len() as int) =~= moves@);
        TouchDelivery::Moved(moved)
    }

    /// Lifts the fingers `ups`, one after the other.
    fn handle_ups(&mut self, ups: &Vec<u64>) -> (d: TouchDelivery)
        requires
            old(self).wf(),
            forall|i: int|
                0 <= i < old(self).touches().len() ==> #[trigger] old(self).touches()[i].phase
                    == UITouchPhaseStationary,
        ensures
            final(self).wf(),
            final(self).touches() == apply_ups(old(self).touches(), ups@).0,
            d matches TouchDelivery::Ended(e) && e@ == apply_ups(old(self).touches(), ups@).1,
    {
        let ghost t0 = self.touches();
        let mut ended: Vec<u32> = Vec::new();
        let mut k: usize = 0;
        assert(ups@.take(0) =~= Seq::<u64>::empty());
        while k < ups.len()
            invariant
                self.wf(),
                t0 == old(self).touches(),
                k <= ups@.len(),
                forall|i: int|
                    0 <= i < self.touches().len() ==> #[trigger] self.touches()[i].phase
                        == UITouchPhaseStationary,
                (self.touches(), ended@) == apply_ups(t0, ups@.take(k as int)),
            decreases ups@.len() - k,
        {
            let ghost before = self.touches();
            let f = ups[k];
            let r = self.touch_up(f);
            if let Some(touch) = r {
                ended.push(touch);
            }
            proof {
                assert(ups@.take(k + 1).drop_last() =~= ups@.take(k as int));
                assert(ups@.take(k + 1).last() == f);
                if let Some(i) = finger_index(before, f) {
                    assert forall|x: int|
                        0 <= x < self.touches().len() implies #[trigger] self.touches()[x].phase
                        == UITouchPhaseStationary by {
                        if x < i {
                            assert(self.touches()[x] == before[x]);
                        } else {
                            assert(self.touches()[x] == before[x + 1]);
                        }
                    }
                }
            }
            k = k + 1;
        }
        assert(ups@.take(ups@.len() as int) =~= ups@);
        TouchDelivery::Ended(ended)
    }
}


/// The touches among `pairs` (`(touch, view)`, in order) whose target is
/// `view`, in order.
pub open spec fn touches_of(pairs: Seq<(u32, u32)>, view: u32) -> Seq<u32>
    decreases pairs.len(),
{
    if pairs.len() == 0 {
        Seq::empty()
    } else {
        let prev = touches_of(pairs.drop_last(), view);
        if pairs.last().1 == view {
            prev.push(pairs.last().0)
        } else {
            prev
        }
    }
}

/// Some touch among the first `n` of `pairs` targets `view`.
pub open spec fn view_targeted(pairs: Seq<(u32, u32)>, n: int, view: u32) -> bool {
    exists|k: int| 0 <= k < n && #[trigger] pairs[k].1 == view
}

/// `view` is one of `views`.
pub open spec fn view_listed(views: Seq<u32>, view: u32) -> bool {
    exists|i: int| 0 <= i < views.len() && #[trigger] views[i] == view
}

/// The distinct target views among the first `n` of `pairs`, in order of
/// first occurrence, are `views`.
pub open spec fn target_views(pairs: Seq<(u32, u32)>, n: int, views: Seq<u32>) -> bool {
    &&& forall|i: int, j: int| 0 <= i < j < views.len() ==> #[trigger] views[i] != #[trigger] views[j]
    &&& forall|i: int| 0 <= i < views.len() ==> #[trigger] views[i] != 0 && view_targeted(pairs, n, views[i])
    &&& forall|k: int| 0 <= k < n && #[trigger] pairs[k].1 != 0 ==> view_listed(views, pairs[k].1)
}

/// Groups the touches of an event by the view they were delivered to, so
/// that each view gets one `touchesBegan:withEvent:` (or the like) with all
/// of its touches. `pairs` holds each touch with its target view, 0 where
/// hit-testing found none (such touches go nowhere). Every target view
/// gets one group, in the order the views first occur, holding its touches
/// in order.
pub fn group_touches_by_view(pairs: &Vec<(u32, u32)>) -> (groups: Vec<(u32, Vec<u32>)>)
    ensures
        target_views(pairs@, pairs@.len() as int, groups@.map_values(|g: (u32, Vec<u32>)| g.0)),
        forall|i: int|
            0 <= i < groups@.len() ==> (#[trigger] groups@[i]).1@ == touches_of(pairs@, groups@[i].0),
{
    let mut views: Vec<u32> = Vec::new();
    let mut k: usize = 0;
    while k < pairs.len()
        invariant
            k <= pairs@.len(),
            target_views(pairs@, k as int, views@),
        decreases pairs@.len() - k,
    {
        let view = pairs[k].1;
        let ghost old_views = views@;
        let mut seen = false;
        if view != 0 {
            let mut i: usize = 0;
            while i < views.len()
                invariant
                    i <= views@.len(),
                    seen ==> view_listed(views@, view),
                    !seen ==> forall|i2: int| 0 <= i2 < i ==> #[trigger] views@[i2] != view,
                decreases views@.len() - i,
            {
                if views[i] == view {
                    seen = true;
                }
                i = i + 1;
            }
            if !seen {
                views.push(view);
            }
        }
        proof {
            lemma_target_views_step(pairs@, k as int, old_views, views@, seen);
        }
        k = k + 1;
    }
    let mut groups: Vec<(u32, Vec<u32>)> = Vec::new();
    let mut g: usize = 0;
    while g < views.len()
        invariant
            g <= views@.len(),
            groups@.len() == g,
            forall|i: int| 0 <= i < g ==> (#[trigger] groups@[i]).0 == views@[i],
            forall|i: int| 0 <= i < g ==> (#[trigger] groups@[i]).1@ == touches_of(pairs@, views@[i]),
        decreases views@.len() - g,
    {
        let view = views[g];
        let mut touches: Vec<u32> = Vec::new();
        let mut k: usize = 0;
        assert(pairs@.take(0) =~= Seq::<(u32, u32)>::empty());
        while k < pairs.len()
            invariant
                k <= pairs@.len(),
                touches@ == touches_of(pairs@.take(k as int), view),
            decreases pairs@.len() - k,
        {
            assert(pairs@.take(k + 1).drop_last() =~= pairs@.take(k as int));
            if pairs[k].1 == view {
                touches.push(pairs[k].0);
            }
            k = k + 1;
        }
        assert(pairs@.take(pairs@.len() as int) =~= pairs@);
        groups.push((view, touches));
        g = g + 1;
    }
    assert(groups@.map_values(|g: (u32, Vec<u32>)| g.0) =~= views@);
    groups
}

proof fn lemma_target_views_step(pairs: Seq<(u32, u32)>, k: int, before: Seq<u32>, after: Seq<u32>, seen: bool)
    requires
        0 <= k < pairs.len(),
        target_views(pairs, k, before),
        pairs[k].1 == 0 ==> after == before,
        pairs[k].1 != 0 && seen ==> after == before && view_listed(before, pairs[k].1),
        pairs[k].1 != 0 && !seen ==> after == before.push(pairs[k].1) && forall|i: int|
            0 <= i < before.len() ==> #[trigger] before[i] != pairs[k].1,
    ensures
        target_views(pairs, k + 1, after),
{
    let view = pairs[k].1;
    assert forall|i: int| 0 <= i < after.len() implies #[trigger] after[i] != 0 && view_targeted(
        pairs,
        k + 1,
        after[i],
    ) by {
        if i < before.len() {
            assert(after[i] == before[i]);
            assert(view_targeted(pairs, k, before[i]));
            let k2 = choose|k2: int| 0 <= k2 < k && #[trigger] pairs[k2].1 == before[i];
            assert(pairs[k2].1 == after[i]);
        } else {
            assert(pairs[k].1 == after[i]);
        }
    }
    assert forall|k2: int| 0 <= k2 < k + 1 && #[trigger] pairs[k2].1 != 0 implies view_listed(
        after,
        pairs[k2].1,
    ) by {
        if k2 < k {
            assert(view_listed(before, pairs[k2].1));
            let i = choose|i: int| 0 <= i < before.len() && #[trigger] before[i] == pairs[k2].1;
            assert(after[i] == before[i]);
        } else if !seen {
            assert(after[before.len() as int] == view);
        }
    }
}

/// What choosing a touch's target reads of one of a window's subviews:
/// the view, whether its class is exactly `UIView`, whether it is a
/// `UIImageView`, whether it is hidden, and whether it takes user
/// interaction.
pub type SubviewInfo = (u32, bool, bool, bool, bool);

/// A subview that takes touches that land on a plain view or an image: a
/// visible, interactive view of a class of the app's own.
pub open spec fn takes_pierced_touches(v: SubviewInfo) -> bool {
    !v.1 && !v.2 && !v.3 && v.4
}

/// The front-most of `subviews` (back to front) that takes pierced touches.
pub open spec fn front_touch_taker(subviews: Seq<SubviewInfo>) -> Option<u32>
    decreases subviews.len(),
{
    if subviews.len() == 0 {
        None
    } else if takes_pierced_touches(subviews.last()) {
        Some(subviews.last().0)
    } else {
        front_touch_taker(subviews.drop_last())
    }
}

/// The view of `window` that a touch goes to, given the view that
/// hit-testing found (`hit`, 0 for none) and what it is: a hit on nothing,
/// on a plain `UIView` or on an image view passes through to the front-most
/// subview that takes touches; failing that, a hit on nothing goes to the
/// window itself.
pub open spec fn spec_touch_target(
    hit: u32,
    hit_plain_view: bool,
    hit_image_view: bool,
    subviews: Seq<SubviewInfo>,
    window: u32,
) -> u32 {
    if hit == 0 || hit_plain_view || hit_image_view {
        match front_touch_taker(subviews) {
            Some(v) => v,
            None => if hit == 0 {
                window
            } else {
                hit
            },
        }
    } else {
        hit
    }
}

/// Chooses the view of `window` that a touch goes to (see
/// [spec_touch_target]); hit-testing itself works on floating-point
/// coordinates and happens around this library.
pub fn touch_target(
    hit: u32,
    hit_plain_view: bool,
    hit_image_view: bool,
    subviews: &Vec<SubviewInfo>,
    window: u32,
) -> (t: u32)
    ensures
        t == spec_touch_target(hit, hit_plain_view, hit_image_view, subviews@, window),
{
    if !(hit == 0 || hit_plain_view || hit_image_view) {
        return hit;
    }
    let mut j = subviews.len();
    assert(subviews@.take(j as int) =~= subviews@);
    while j > 0
        invariant
            j <= subviews@.len(),
            front_touch_taker(subviews@) == front_touch_taker(subviews@.take(j as int)),
            hit == 0 || hit_plain_view || hit_image_view,
        decreases j,
    {
        assert(subviews@.take(j as int).drop_last() =~= subviews@.take(j - 1));
        let v = subviews[j - 1];
        assert(subviews@.take(j as int).last() == v);
        if !v.1 && !v.2 && !v.3 && v.4 {
            return v.0;
        }
        j = j - 1;
    }
    if hit == 0 {
        window
    } else {
        hit
    }
}

proof fn lemma_front_touch_taker(subviews: Seq<SubviewInfo>)
    ensures
        match front_touch_taker(subviews) {
            Some(v) => exists|i: int|
                0 <= i < subviews.len() && !subviews[i].1 && !subviews[i].2 && !subviews[i].3
                    && subviews[i].4 && #[trigger] subviews[i].0 == v && forall|j: int|
                    i < j < subviews.len() ==> !(!(#[trigger] subviews[j]).1 && !subviews[j].2
                        && !subviews[j].3 && subviews[j].4),
            None => forall|i: int|
                0 <= i < subviews.len() ==> !(!(#[trigger] subviews[i]).1 && !subviews[i].2
                    && !subviews[i].3 && subviews[i].4),
        },
    decreases subviews.len(),
{
    if subviews.len() > 0 {
        let rest = subviews.drop_last();
        lemma_front_touch_taker(rest);
        let last = subviews.len() - 1;
        assert(subviews[last] == subviews.last());
        if !takes_pierced_touches(subviews.last()) {
            assert forall|i: int| 0 <= i < last implies #[trigger] subviews[i] == rest[i] by {}
            match front_touch_taker(rest) {
                Some(v) => {
                    let i = choose|i: int|
                        0 <= i < rest.len() && !rest[i].1 && !rest[i].2 && !rest[i].3 && rest[i].4
                            && #[trigger] rest[i].0 == v && forall|j: int|
                            i < j < rest.len() ==> !(!(#[trigger] rest[j]).1 && !rest[j].2
                                && !rest[j].3 && rest[j].4);
                    assert(subviews[i] == rest[i]);
                    assert forall|j: int| i < j < subviews.len() implies !(!(#[trigger] subviews[j]).1
                        && !subviews[j].2 && !subviews[j].3 && subviews[j].4) by {
                        if j < last {
                            assert(subviews[j] == rest[j]);
                        }
                    }
                },
                None => {
                    assert forall|i: int| 0 <= i < subviews.len() implies !(!(#[trigger] subviews[i]).1
                        && !subviews[i].2 && !subviews[i].3 && subviews[i].4) by {
                        if i < last {
                            assert(subviews[i] == rest[i]);
                        }
                    }
                },
            }
        } else {
            assert(subviews[last].0 == subviews.last().0);
        }
    }
}

/// Where a touch goes. A touch that hit a view of the app's own class stays
/// there. A touch that hit nothing, a plain `UIView` or an image view goes
/// to a subview that is not a plain view, not an image view, not hidden and
/// takes user interaction, if any subview is such, and then to the
/// front-most such one: no subview after it (nearer the front) is such.
/// Failing that, it stays with the view it hit, or goes to the window if it
/// hit nothing.
pub proof fn law_touch_target(
    hit: u32,
    hit_plain_view: bool,
    hit_image_view: bool,
    subviews: Seq<SubviewInfo>,
    window: u32,
)
    ensures
        ({
            let t = spec_touch_target(hit, hit_plain_view, hit_image_view, subviews, window);
            let pierced = hit == 0 || hit_plain_view || hit_image_view;
            let any_taker = exists|i: int|
                0 <= i < subviews.len() && !(#[trigger] subviews[i]).1 && !subviews[i].2
                    && !subviews[i].3 && subviews[i].4;
            &&& !pierced ==> t == hit
            &&& (pierced && any_taker) ==> exists|i: int|
                0 <= i < subviews.len() && !subviews[i].1 && !subviews[i].2 && !subviews[i].3
                    && subviews[i].4 && #[trigger] subviews[i].0 == t && forall|j: int|
                    i < j < subviews.len() ==> !(!(#[trigger] subviews[j]).1 && !subviews[j].2
                        && !subviews[j].3 && subviews[j].4)
            &&& (pierced && !any_taker) ==> t == if hit == 0 {
                window
            } else {
                hit
            }
        }),
{
    lemma_front_touch_taker(subviews);
}

} // verus!
