use vstd::prelude::*;

verus! {

/// Whether an event of a fractal's traversal is a hit on the primitive (a
/// real surface) or on a bounding volume that still has to be opened.
#[derive(Clone, Copy, Debug, PartialEq, Eq, Structural)]
pub enum EventKind {
    Real,
    Bound,
}

/// One pending collision of a fractal's traversal: its distance as an order
/// key, its kind, and the caller's index of the collision (and, for a bound,
/// of the transform that produced it).
#[derive(Clone, Copy, Debug, PartialEq, Eq, Structural)]
pub struct Event {
    pub t: i64,
    pub kind: EventKind,
    pub id: usize,
}

/// `e` is as near as every event of `events`.
pub open spec fn nearest_of(events: Seq<Event>, e: Event) -> bool {
    forall|j: int| 0 <= j < events.len() ==> e.t <= events[j].t
}

/// `after` is `before` with one occurrence of `e` taken out.
pub open spec fn took(before: Seq<Event>, after: Seq<Event>, e: Event) -> bool {
    exists|i: int| 0 <= i < before.len() && before[i] == e && after == before.remove(i)
}

/// An event taken as the nearest of the pending ones is as near as every
/// event still pending after it: a real hit found that way cannot be hidden
/// behind anything the traversal has yet to open.
pub proof fn lemma_taken_nearest_stays_nearest(before: Seq<Event>, after: Seq<Event>, e: Event)
    requires
        nearest_of(before, e),
        took(before, after, e),
    ensures
        nearest_of(after, e),
{
    let i = choose|i: int| 0 <= i < before.len() && before[i] == e && after == before.remove(i);
    assert forall|j: int| 0 <= j < after.len() implies e.t <= after[j].t by {
        if j < i {
            assert(after[j] == before[j]);
        } else {
            assert(after[j] == before[j + 1]);
        }
    }
}

/// The pending events of a traversal, handed out nearest first.
pub struct EventQueue {
    events: Vec<Event>,
}

impl View for EventQueue {
    type V = Seq<Event>;

    closed spec fn view(&self) -> Seq<Event> {
        self.events@
    }
}

impl EventQueue {
    pub fn new() -> (r: EventQueue)
        ensures
            r@ == Seq::<Event>::empty(),
    {
        EventQueue { events: Vec::new() }
    }

    pub fn len(&self) -> (r: usize)
        ensures
            r == self@.len(),
    {
        self.events.len()
    }

    pub fn push(&mut self, event: Event)
        ensures
            final(self)@ == old(self)@.push(event),
    {
        self.events.push(event);
    }

    /// Removes and returns a nearest event; of equally near ones, the one
    /// pushed first.
    pub fn pop(&mut self) -> (r: Option<Event>)
        ensures
            r is None <==> old(self)@.len() == 0,
            r is None ==> final(self)@ == old(self)@,
            r matches Some(e) ==> exists|i: int|
                0 <= i < old(self)@.len() && old(self)@[i] == e && final(self)@ == old(self)@.remove(i)
                    && forall|j: int| 0 <= j < i ==> e.t < old(self)@[j].t,
            r matches Some(e) ==> took(old(self)@, final(self)@, e),
            r matches Some(e) ==> nearest_of(old(self)@, e),
    {
        if self.events.len() == 0 {
            return None;
        }
        let mut best: usize = 0;
        let mut i: usize = 1;
        while i < self.events.len()
            invariant
                1 <= i <= self.events@.len(),
                best < i,
                forall|j: int| 0 <= j < i ==> self.events@[best as int].t <= self.events@[j].t,
                forall|j: int| 0 <= j < best ==> self.events@[best as int].t < self.events@[j].t,
            decreases self.events@.len() - i,
        {
            if self.events[i].t < self.events[best].t {
                best = i;
            }
            i = i + 1;
        }
        let e = self.events.remove(best);
        Some(e)
    }
}

/// Queues an event when there is one.
pub fn push_opt(queue: &mut EventQueue, item: Option<Event>)
    ensures
        item is None ==> final(queue)@ == old(queue)@,
        item matches Some(e) ==> final(queue)@ == old(queue)@.push(e),
{
    match item {
        None => {},
        Some(element) => queue.push(element),
    }
}

/// The next move of a fractal's traversal.
#[derive(Clone, Copy, Debug, PartialEq, Eq, Structural)]
pub enum WalkStep {
    /// Open this bounding volume: its children's bounds and the primitive
    /// under its transform are to be tested and queued.
    Expand(Event),
    /// The traversal ends at this event.
    Found(Event),
    /// Nothing is left to hit.
    Lost,
}

/// The traversal of a bounded iterated-function-system shape: pending events
/// and the number of bounding volumes that may still be opened.
pub struct FractalWalk {
    queue: EventQueue,
    dwell: u32,
}

impl FractalWalk {
    pub closed spec fn pending(&self) -> Seq<Event> {
        self.queue@
    }

    pub closed spec fn dwell_left(&self) -> u32 {
        self.dwell
    }

    /// Starts from the hit on the outermost bounding volume.
    pub fn new(seed: Event, dwell: u32) -> (r: FractalWalk)
        ensures
            r.pending() == seq![seed],
            r.dwell_left() == dwell,
    {
        let mut queue = EventQueue::new();
        queue.push(seed);
        FractalWalk { queue, dwell }
    }

    /// Queues the events found when opening a bounding volume.
    pub fn add_events(&mut self, events: Vec<Event>)
        ensures
            final(self).pending() == old(self).pending() + events@,
            final(self).dwell_left() == old(self).dwell_left(),
    {
        let mut k: usize = 0;
        while k < events.len()
            invariant
                0 <= k <= events@.len(),
                self.pending() == old(self).pending() + events@.subrange(0, k as int),
                self.dwell_left() == old(self).dwell_left(),
            decreases events@.len() - k,
        {
            self.queue.push(events[k]);
            assert(events@.subrange(0, k + 1) =~= events@.subrange(0, k as int).push(events@[k as int]));
            k = k + 1;
        }
        assert(events@.subrange(0, events@.len() as int) =~= events@);
    }

    /// Takes the nearest pending event. A real hit ends the traversal, since
    /// nothing still pending is nearer; a bounding hit is to be opened while
    /// the dwell lasts. Once it is spent, the nearest event of any kind ends
    /// the traversal, a bounding volume standing in for the surface.
    pub fn step(&mut self) -> (r: WalkStep)
        ensures
            r is Lost <==> old(self).pending().len() == 0,
            r matches WalkStep::Expand(e) ==> e.kind == EventKind::Bound && old(self).dwell_left() > 0
                && final(self).dwell_left() == old(self).dwell_left() - 1,
            r matches WalkStep::Found(e) ==> e.kind == EventKind::Real || old(self).dwell_left() == 0,
            r matches WalkStep::Found(e) ==> nearest_of(old(self).pending(), e),
            r matches WalkStep::Expand(e) ==> nearest_of(old(self).pending(), e),
            r matches WalkStep::Expand(e) ==> took(old(self).pending(), final(self).pending(), e),
            r matches WalkStep::Found(e) ==> took(old(self).pending(), final(self).pending(), e),
    {
        match self.queue.pop() {
            None => WalkStep::Lost,
            Some(e) => {
                if self.dwell == 0 {
                    WalkStep::Found(e)
                } else {
                    match e.kind {
                        EventKind::Real => WalkStep::Found(e),
                        EventKind::Bound => {
                            self.dwell = self.dwell - 1;
                            WalkStep::Expand(e)
                        },
                    }
                }
            },
        }
    }
}

} // verus!
