//! The state of the read task: which processors look at incoming packets,
//! and the one-time handlers that wait for a single packet each.
use std::collections::BTreeMap;
use vstd::prelude::*;

verus! {

broadcast use {vstd::std_specs::btree::group_btree_axioms, vstd::laws_cmp::group_laws_cmp};

/// What one feature contributes to the read task: processors for the realm
/// phase and for the login phase, maps from opcodes to handlers that fire
/// once, and the processors that run before the first packet.
pub struct FeatureProcessors<P, H> {
    pub realm: Vec<P>,
    pub login: Vec<P>,
    pub one_time: Vec<BTreeMap<u16, Vec<H>>>,
    pub initial: Vec<P>,
}

/// The read task's state. `P` is a processor (from an opcode to handlers)
/// and `H` a handler; the rules here only keep and hand them out.
pub struct ReadLoop<P, H> {
    /// The processors consulted for every packet.
    pub processors: Vec<P>,
    /// The realm processors, until the switch to the world server takes them.
    pub realm_processors: Option<Vec<P>>,
    /// Handlers that each fire for one packet with their opcode.
    pub one_time: Vec<BTreeMap<u16, Vec<H>>>,
}

/// The model of a [`ReadLoop`].
pub struct ReadLoopView<P, H> {
    pub processors: Seq<P>,
    pub realm_processors: Option<Seq<P>>,
    pub one_time: Seq<Map<u16, Vec<H>>>,
}

/// The contents of a list of one-time handler maps.
pub open spec fn maps_view<H>(maps: Seq<BTreeMap<u16, Vec<H>>>) -> Seq<Map<u16, Vec<H>>> {
    maps.map_values(|m: BTreeMap<u16, Vec<H>>| m@)
}

impl<P, H> View for ReadLoop<P, H> {
    type V = ReadLoopView<P, H>;

    open spec fn view(&self) -> ReadLoopView<P, H> {
        ReadLoopView {
            processors: self.processors@,
            realm_processors: match self.realm_processors {
                Some(v) => Some(v@),
                None => None,
            },
            one_time: maps_view(self.one_time@),
        }
    }
}

/// The handlers waiting for `opcode` in `maps`, map by map in order.
pub open spec fn one_time_handlers<H>(maps: Seq<Map<u16, Vec<H>>>, opcode: u16) -> Seq<H>
    decreases maps.len(),
{
    if maps.len() == 0 {
        Seq::empty()
    } else {
        let last = maps.last();
        one_time_handlers(maps.drop_last(), opcode) + if last.contains_key(opcode) {
            last[opcode]@
        } else {
            Seq::empty()
        }
    }
}

/// The maps after the handlers for `opcode` have fired.
pub open spec fn without_opcode<H>(maps: Seq<Map<u16, Vec<H>>>, opcode: u16) -> Seq<Map<u16, Vec<H>>> {
    maps.map_values(|m: Map<u16, Vec<H>>| m.remove(opcode))
}

/// The state after the switch to the world server: the realm processors,
/// if still there, replace the current ones; a later switch finds none.
pub open spec fn signal_step<P, H>(l: ReadLoopView<P, H>) -> ReadLoopView<P, H> {
    ReadLoopView {
        processors: match l.realm_processors {
            Some(p) => p,
            None => Seq::empty(),
        },
        realm_processors: None,
        ..l
    }
}

/// A one-time handler fires once: after the handlers for an opcode have
/// been taken, none is left for it, and those of other opcodes stay.
pub proof fn lemma_one_time_fires_once<H>(maps: Seq<Map<u16, Vec<H>>>, opcode: u16, other: u16)
    ensures
        one_time_handlers(without_opcode(maps, opcode), opcode) == Seq::<H>::empty(),
        other != opcode ==> one_time_handlers(without_opcode(maps, opcode), other)
            == one_time_handlers(maps, other),
    decreases maps.len(),
{
    if maps.len() > 0 {
        lemma_one_time_fires_once(maps.drop_last(), opcode, other);
        assert(without_opcode(maps, opcode).drop_last() =~= without_opcode(maps.drop_last(), opcode));
        assert(without_opcode(maps, opcode).last() == maps.last().remove(opcode));
    }
}

/// The realm processors are handed over once: a second switch leaves the
/// read task with no processors.
pub proof fn lemma_realm_switch_once<P, H>(l: ReadLoopView<P, H>)
    ensures
        signal_step(signal_step(l)).processors == Seq::<P>::empty(),
        signal_step(signal_step(l)).one_time == l.one_time,
{
}

impl<P, H> ReadLoop<P, H> {
    /// The read task's state built from its features. The task collects
    /// the first feature's contributions and then ends without reading, so
    /// a state comes back only when there are no features, and then it is
    /// empty.
    pub fn from_features(features: Vec<FeatureProcessors<P, H>>) -> (l: Option<ReadLoop<P, H>>)
        ensures
            features@.len() > 0 ==> l is None,
            features@.len() == 0 ==> (l matches Some(s) && s@ == (ReadLoopView::<P, H> {
                processors: Seq::empty(),
                realm_processors: Some(Seq::empty()),
                one_time: Seq::empty(),
            })),
    {
        if features.len() > 0 {
            None
        } else {
            let l = ReadLoop { processors: Vec::new(), realm_processors: Some(Vec::new()), one_time: Vec::new() };
            proof {
                assert(maps_view(l.one_time@) =~= Seq::<Map<u16, Vec<H>>>::empty());
            }
            Some(l)
        }
    }

    /// The switch to the world server: the realm processors take over.
    pub fn on_signal(&mut self)
        ensures
            final(self)@ == signal_step(old(self)@),
    {
        let mut realm: Option<Vec<P>> = None;
        std::mem::swap(&mut realm, &mut self.realm_processors);
        self.processors = match realm {
            Some(v) => v,
            None => Vec::new(),
        };
    }

    /// Takes the one-time handlers waiting for `opcode`, map by map in
    /// order; they are gone from the maps afterwards.
    pub fn take_one_time_handlers(&mut self, opcode: u16) -> (hs: Vec<H>)
        ensures
            hs@ == one_time_handlers(old(self)@.one_time, opcode),
            final(self)@.one_time == without_opcode(old(self)@.one_time, opcode),
            final(self)@.processors == old(self)@.processors,
            final(self)@.realm_processors == old(self)@.realm_processors,
    {
        let ghost old_maps = maps_view(self.one_time@);
        let n = self.one_time.len();
        let mut out: Vec<H> = Vec::new();
        let mut i: usize = 0;
        while i < n
            invariant
                0 <= i <= n,
                n == self.one_time@.len(),
                old_maps.len() == n,
                self.processors@ == old(self).processors@,
                self.realm_processors == old(self).realm_processors,
                old_maps == maps_view(old(self).one_time@),
                forall|j: int| 0 <= j < i ==> #[trigger] self.one_time@[j]@ == old_maps[j].remove(opcode),
                forall|j: int| i <= j < n ==> #[trigger] self.one_time@[j]@ == old_maps[j],
                out@ == one_time_handlers(old_maps.take(i as int), opcode),
            decreases n - i,
        {
            let mut m = self.one_time.remove(i);
            let taken = m.remove(&opcode);
            proof {
                assert(old_maps.take(i + 1).drop_last() =~= old_maps.take(i as int));
                assert(old_maps.take(i + 1).last() == old_maps[i as int]);
            }
            match taken {
                Some(mut hs) => {
                    out.append(&mut hs);
                },
                None => {},
            }
            self.one_time.insert(i, m);
            i = i + 1;
        }
        proof {
            assert(old_maps.take(n as int) =~= old_maps);
            assert(maps_view(self.one_time@) =~= without_opcode(old_maps, opcode));
        }
        out
    }

    /// The handlers for an incoming packet: those that the processors
    /// returned for its opcode, then the one-time handlers waiting for it
    /// (which are gone afterwards). The flag tells whether no handler at
    /// all takes the packet, in which case the client reports it as it came.
    pub fn handlers_for(&mut self, opcode: u16, from_processors: Vec<H>) -> (r: (Vec<H>, bool))
        ensures
            r.0@ == from_processors@ + one_time_handlers(old(self)@.one_time, opcode),
            r.1 == (r.0@.len() == 0),
            final(self)@.one_time == without_opcode(old(self)@.one_time, opcode),
            final(self)@.processors == old(self)@.processors,
            final(self)@.realm_processors == old(self)@.realm_processors,
    {
        let mut hs = from_processors;
        let mut once = self.take_one_time_handlers(opcode);
        hs.append(&mut once);
        let unhandled = hs.len() == 0;
        (hs, unhandled)
    }
}

} // verus!
