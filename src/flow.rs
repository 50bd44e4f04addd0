use vstd::prelude::*;

use crate::date::{is_day_month_year, travel_date};
use crate::event::Key;
use crate::expeditions::{Expedition, ExpeditionRequest};
use crate::stateful_list::{ListView, StatefulList};
use crate::stops::Stop;

verus! {

/// Where the stop selection stands.
#[derive(Clone, Copy, Debug, PartialEq, Eq, Structural)]
pub enum Phase {
    ChoosingOrigin,
    ChoosingDestination,
    Ready,
}

/// The choices agree with the phase: none while choosing the origin, the
/// origin alone while choosing the destination, both once ready.
pub open spec fn selection_consistent(phase: Phase, origin: Option<Stop>, destination: Option<Stop>) -> bool {
    match phase {
        Phase::ChoosingOrigin => origin is None && destination is None,
        Phase::ChoosingDestination => origin is Some && destination is None,
        Phase::Ready => origin is Some && destination is Some,
    }
}

/// The phase of the selection and the stops chosen so far.
#[derive(Debug)]
pub struct SelectionState {
    pub phase: Phase,
    pub origin: Option<Stop>,
    pub destination: Option<Stop>,
}

/// What the flow holds.
pub struct FlowView {
    pub phase: Phase,
    pub origin: Option<Stop>,
    pub destination: Option<Stop>,
    pub from_stops: ListView<Stop>,
    pub to_stops: ListView<Stop>,
    /// The outward and return trip lists, once loaded.
    pub trips: Option<(ListView<Expedition>, ListView<Expedition>)>,
    /// Whether the trip search of this selection has been handed out.
    pub query_sent: bool,
    pub exit: bool,
}

impl FlowView {
    /// The choices agree with the phase, only a complete selection has trips
    /// or a search handed out, and every cursor is valid.
    pub open spec fn wf(self) -> bool {
        &&& selection_consistent(self.phase, self.origin, self.destination)
        &&& self.from_stops.wf()
        &&& self.to_stops.wf()
        &&& match self.trips {
            Some((outward, back)) => outward.wf() && back.wf(),
            None => true,
        }
        &&& self.trips is Some ==> self.phase == Phase::Ready
        &&& self.query_sent ==> self.phase == Phase::Ready
    }
}

/// The flow at start: both lists over the whole catalogue, nothing chosen.
pub open spec fn initial_view(stops: Seq<Stop>) -> FlowView {
    FlowView {
        phase: Phase::ChoosingOrigin,
        origin: None,
        destination: None,
        from_stops: ListView { items: stops, cursor: None },
        to_stops: ListView { items: stops, cursor: None },
        trips: None,
        query_sent: false,
        exit: false,
    }
}

/// The flow after one key. Quit ends the flow whatever the phase. While
/// choosing the origin, and then the destination, up and down move that
/// list's cursor and enter chooses the stop under it, if any, moving on to
/// the next phase. Once ready, up and down move both trip lists, if loaded.
pub open spec fn step(v: FlowView, key: Key) -> FlowView {
    if key == Key::Quit {
        FlowView { exit: true, ..v }
    } else {
        match v.phase {
            Phase::ChoosingOrigin => if key == Key::Enter {
                match v.from_stops.current() {
                    Some(s) => FlowView { phase: Phase::ChoosingDestination, origin: Some(s), ..v },
                    None => v,
                }
            } else {
                FlowView { from_stops: v.from_stops.on_key(key), ..v }
            },
            Phase::ChoosingDestination => if key == Key::Enter {
                match v.to_stops.current() {
                    Some(s) => FlowView { phase: Phase::Ready, destination: Some(s), ..v },
                    None => v,
                }
            } else {
                FlowView { to_stops: v.to_stops.on_key(key), ..v }
            },
            Phase::Ready => match v.trips {
                Some((outward, back)) => FlowView { trips: Some((outward.on_key(key), back.on_key(key))), ..v },
                None => v,
            },
        }
    }
}

/// Moves the cursors of both trip lists, if loaded.
fn navigate_trips(trips: &mut Option<(StatefulList<Expedition>, StatefulList<Expedition>)>, key: Key)
    ensures
        match *old(trips) {
            Some((outward, back)) => match *final(trips) {
                Some((o, b)) => o@ == outward@.on_key(key) && b@ == back@.on_key(key),
                None => false,
            },
            None => *final(trips) is None,
        },
    no_unwind
{
    if let Some((outward, back)) = trips {
        match key {
            Key::Up => {
                outward.previous();
                back.previous();
            },
            Key::Down => {
                outward.next();
                back.next();
            },
            _ => {},
        }
    }
}

/// The two-phase stop selection and the trip lists it leads to.
pub struct App {
    from_stops: StatefulList<Stop>,
    to_stops: StatefulList<Stop>,
    selection: SelectionState,
    expeditions: Option<(StatefulList<Expedition>, StatefulList<Expedition>)>,
    query_sent: bool,
    exit: bool,
}

impl View for App {
    type V = FlowView;

    closed spec fn view(&self) -> FlowView {
        FlowView {
            phase: self.selection.phase,
            origin: self.selection.origin,
            destination: self.selection.destination,
            from_stops: self.from_stops@,
            to_stops: self.to_stops@,
            trips: match self.expeditions {
                Some((outward, back)) => Some((outward@, back@)),
                None => None,
            },
            query_sent: self.query_sent,
            exit: self.exit,
        }
    }
}

impl App {
    /// The phase, the choices, what was sent and the loaded trips agree.
    #[verifier::type_invariant]
    pub open spec fn inv(&self) -> bool {
        self@.wf()
    }

    /// A flow over the fetched catalogue.
    pub fn new(stops: Vec<Stop>) -> (r: Self)
        ensures
            r@ == initial_view(stops@),
    {
        let mut copy: Vec<Stop> = Vec::new();
        let mut i: usize = 0;
        while i < stops.len()
            invariant
                0 <= i <= stops@.len(),
                copy@ == stops@.subrange(0, i as int),
            decreases stops.len() - i,
        {
            copy.push(stops[i].clone());
            i = i + 1;
        }
        assert(copy@ =~= stops@);
        App {
            from_stops: StatefulList::with_items(copy),
            to_stops: StatefulList::with_items(stops),
            selection: SelectionState { phase: Phase::ChoosingOrigin, origin: None, destination: None },
            expeditions: None,
            query_sent: false,
            exit: false,
        }
    }

    /// Reacts to one key as [`step`] says.
    pub fn handle_key(&mut self, key: Key)
        ensures
            final(self)@ == step(old(self)@, key),
    {
        proof {
            use_type_invariant(&*self);
        }
        if key == Key::Quit {
            self.exit = true;
            return;
        }
        match self.selection.phase {
            Phase::ChoosingOrigin => match key {
                Key::Up => self.from_stops.previous(),
                Key::Down => self.from_stops.next(),
                Key::Enter => {
                    if let Some(stop) = self.from_stops.commit() {
                        self.selection = SelectionState {
                            phase: Phase::ChoosingDestination,
                            origin: Some(stop),
                            destination: None,
                        };
                    }
                },
                _ => {},
            },
            Phase::ChoosingDestination => match key {
                Key::Up => self.to_stops.previous(),
                Key::Down => self.to_stops.next(),
                Key::Enter => {
                    if let Some(stop) = self.to_stops.commit() {
                        let origin = self.selection.origin.clone();
                        self.selection = SelectionState {
                            phase: Phase::Ready,
                            origin,
                            destination: Some(stop),
                        };
                    }
                },
                _ => {},
            },
            Phase::Ready => navigate_trips(&mut self.expeditions, key),
        }
    }

    /// The trip search of a complete selection, handed out once: `None`
    /// before both stops are chosen and after it was handed out. The date
    /// is the one given, else today's.
    pub fn pending_query(&mut self, date: Option<String>) -> (r: Option<ExpeditionRequest>)
        ensures
            old(self)@.phase == Phase::Ready && !old(self)@.query_sent ==> {
                &&& final(self)@ == (FlowView { query_sent: true, ..old(self)@ })
                &&& r is Some
                &&& r->0.from == old(self)@.origin->0.parada
                &&& r->0.to == old(self)@.destination->0.parada
                &&& match date {
                    Some(d) => r->0.date == d,
                    None => is_day_month_year(r->0.date@),
                }
            },
            !(old(self)@.phase == Phase::Ready && !old(self)@.query_sent) ==> {
                &&& final(self)@ == old(self)@
                &&& r is None
            },
    {
        proof {
            use_type_invariant(&*self);
        }
        if self.selection.phase != Phase::Ready || self.query_sent {
            return None;
        }
        match (&self.selection.origin, &self.selection.destination) {
            (Some(from), Some(to)) => {
                let query = ExpeditionRequest::from_stops((from, to), travel_date(date));
                self.query_sent = true;
                Some(query)
            },
            _ => None,
        }
    }

    /// Loads the trips found for the selection; ignored before the
    /// selection is complete.
    pub fn load_trips(&mut self, outward: Vec<Expedition>, back: Vec<Expedition>)
        ensures
            old(self)@.phase == Phase::Ready ==> final(self)@ == (FlowView {
                trips: Some((ListView { items: outward@, cursor: None }, ListView { items: back@, cursor: None })),
                ..old(self)@
            }),
            old(self)@.phase != Phase::Ready ==> final(self)@ == old(self)@,
    {
        proof {
            use_type_invariant(&*self);
        }
        if self.selection.phase == Phase::Ready {
            self.expeditions = Some((StatefulList::with_items(outward), StatefulList::with_items(back)));
        }
    }

    /// Whether quitting was asked for.
    pub fn exit_requested(&self) -> (r: bool)
        ensures
            r == self@.exit,
    {
        self.exit
    }

    /// The phase of the selection and the stops chosen so far.
    pub fn selection(&self) -> (r: &SelectionState)
        ensures
            r.phase == self@.phase,
            r.origin == self@.origin,
            r.destination == self@.destination,
    {
        &self.selection
    }

    pub fn phase(&self) -> (r: Phase)
        ensures
            r == self@.phase,
    {
        self.selection.phase
    }

    /// The chosen origin, if any.
    pub fn origin(&self) -> (r: Option<&Stop>)
        ensures
            match self@.origin {
                Some(s) => r == Some(&s),
                None => r is None,
            },
    {
        match &self.selection.origin {
            Some(s) => Some(s),
            None => None,
        }
    }

    /// The chosen destination, if any.
    pub fn destination(&self) -> (r: Option<&Stop>)
        ensures
            match self@.destination {
                Some(s) => r == Some(&s),
                None => r is None,
            },
    {
        match &self.selection.destination {
            Some(s) => Some(s),
            None => None,
        }
    }

    /// The list the origin is chosen from.
    pub fn from_stops(&self) -> (r: &StatefulList<Stop>)
        ensures
            r@ == self@.from_stops,
    {
        &self.from_stops
    }

    /// The list the destination is chosen from.
    pub fn to_stops(&self) -> (r: &StatefulList<Stop>)
        ensures
            r@ == self@.to_stops,
    {
        &self.to_stops
    }

    /// The outward and return trip lists, once loaded.
    pub fn trips(&self) -> (r: Option<(&StatefulList<Expedition>, &StatefulList<Expedition>)>)
        ensures
            match self@.trips {
                Some((outward, back)) => match r {
                    Some((o, b)) => o@ == outward && b@ == back,
                    None => false,
                },
                None => r is None,
            },
    {
        match &self.expeditions {
            Some((outward, back)) => Some((outward, back)),
            None => None,
        }
    }
}

/// From a fresh flow over a non-empty catalogue, enter alone chooses
/// nothing and the flow stays choosing the origin; down then enter chooses
/// the first stop as origin and moves on to choosing the destination.
pub proof fn lemma_first_origin_choice(stops: Seq<Stop>)
    requires
        stops.len() > 0,
    ensures
        step(initial_view(stops), Key::Enter) == initial_view(stops),
        step(step(initial_view(stops), Key::Down), Key::Enter).phase == Phase::ChoosingDestination,
        step(step(initial_view(stops), Key::Down), Key::Enter).origin == Some(stops[0]),
{
}

/// No key breaks the agreement between the phase and the choices, nor
/// makes a cursor invalid.
pub proof fn lemma_step_keeps_selection_consistent(v: FlowView, key: Key)
    requires
        v.wf(),
    ensures
        step(v, key).wf(),
{
}

} // verus!
