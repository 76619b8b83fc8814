//! The two-phase sync of a mirrored value: [`Synced`], and the correlation token that pairs a
//! read with the placeholder awaiting it.

use vstd::prelude::*;

verus! {

/// The placeholder's half of a correlation token: minted only beside its [`RidingGeneration`]
/// twin, moved once into the [`Synced::Pending`] placeholder.
///
/// Opaque: not `Copy`, not `Clone`, not comparable.
#[derive(Debug)]
pub struct HeldGeneration(u64);

/// The travelling half: minted beside its [`HeldGeneration`] twin, moved once into the read
/// effect the model emits, and carried home by the read's value event.
#[derive(Debug)]
pub struct RidingGeneration(u64);

impl HeldGeneration {
    /// Which mint this half came from.
    pub closed spec fn id(self) -> u64 {
        self.0
    }
}

impl RidingGeneration {
    /// Which mint this half came from.
    pub closed spec fn id(self) -> u64 {
        self.0
    }
}

/// The model's generation mint: one counter per model.
#[derive(Debug)]
pub struct GenerationMinter(u64);

impl GenerationMinter {
    /// How many pairs this mint has handed out.
    pub closed spec fn minted(self) -> u64 {
        self.0
    }

    /// The matched pair: the placeholder's half, and the half that rides the read effect home.
    /// Each pair carries the next id.
    pub fn mint(&mut self) -> (r: (HeldGeneration, RidingGeneration))
        requires
            old(self).minted() < u64::MAX,
        ensures
            final(self).minted() == old(self).minted() + 1,
            r.0.id() == final(self).minted(),
            r.1.id() == final(self).minted(),
    {
        self.0 = self.0 + 1;
        (HeldGeneration(self.0), RidingGeneration(self.0))
    }
}

impl Default for GenerationMinter {
    fn default() -> (r: Self)
        ensures
            r.minted() == 0,
    {
        GenerationMinter(0)
    }
}

/// One value synced from the outside world in two phases.
///
/// The fact ("it changed") empties the entry; the value ("this is what it changed to") fills
/// the entry iff it brings the matching half home.
#[derive(Debug)]
pub enum Synced<V> {
    /// The fact arrived; the read carrying this token's twin is in flight.
    Pending(HeldGeneration),
    /// What the last landed read answered.
    Known(V),
}

impl<V> Synced<V> {
    /// The entry after a value arrives with `riding`.
    pub open spec fn after_commit(self, riding: RidingGeneration, value: V) -> Synced<V> {
        match self {
            Synced::Pending(held) => if held.id() == riding.id() {
                Synced::Known(value)
            } else {
                self
            },
            Synced::Known(_) => self,
        }
    }

    /// The fact: the old value dies, and the placeholder takes its half of the pair.
    pub fn change(&mut self, held: HeldGeneration)
        ensures
            *final(self) == Synced::<V>::Pending(held),
    {
        *self = Synced::Pending(held);
    }

    /// The value: applied iff the riding half matches the placeholder's.
    pub fn commit(&mut self, riding: &RidingGeneration, value: V)
        ensures
            *final(self) == old(self).after_commit(*riding, value),
    {
        let lands = match self {
            Synced::Pending(HeldGeneration(held)) => *held == riding.0,
            Synced::Known(_) => false,
        };
        if lands {
            *self = Synced::Known(value);
        }
    }

    /// The current value, if the sync has one. `Pending` is "no value right now".
    pub fn known(&self) -> (r: Option<&V>)
        ensures
            r == (match self {
                Synced::Known(v) => Some(v),
                Synced::Pending(_) => None::<&V>,
            }),
    {
        match self {
            Synced::Known(v) => Some(v),
            Synced::Pending(_) => None,
        }
    }
}

/// Two mints from one minter never hand out the same id, so a riding half from one read can
/// never land on the placeholder of another. A mint's id is the minter's count after it, and a
/// second mint starts from a count past the first one's.
pub proof fn law_mints_are_distinct(before_first: GenerationMinter, before_second: GenerationMinter)
    requires
        before_first.minted() < before_second.minted(),
    ensures
        before_first.minted() + 1 != before_second.minted() + 1,
{
}

/// A value lands exactly on the placeholder holding its twin: a newer fact, a foreign half,
/// or an entry already known is left as it was.
pub proof fn law_commit_lands_only_on_its_twin<V>(entry: Synced<V>, riding: RidingGeneration, value: V)
    ensures
        entry.after_commit(riding, value) != entry ==> (entry matches Synced::Pending(h) && h.id() == riding.id()),
        entry matches Synced::Pending(h) && h.id() == riding.id() ==> entry.after_commit(riding, value) == Synced::<V>::Known(value),
        entry is Known ==> entry.after_commit(riding, value) == entry,
{
}

/// After a fact, only the half minted with it lands: `change(h)` then `commit(r, v)` gives
/// `Known(v)` iff `r` is `h`'s twin.
pub proof fn law_fact_then_value<V>(held: HeldGeneration, riding: RidingGeneration, value: V)
    ensures
        Synced::<V>::Pending(held).after_commit(riding, value) == (if held.id() == riding.id() {
            Synced::Known(value)
        } else {
            Synced::<V>::Pending(held)
        }),
{
}

} // verus!
