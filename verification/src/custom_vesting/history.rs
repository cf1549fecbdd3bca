use vstd::prelude::*;

verus! {

/// One versioned value: what it holds now, and for each height at which it was
/// first overwritten, what it held until then (`None` where it held nothing).
pub struct History<V> {
    pub latest: Option<V>,
    pub changes: Map<u64, Option<V>>,
}

impl<V> History<V> {
    /// The history of a value that was never written.
    pub open spec fn empty() -> History<V> {
        History { latest: None, changes: Map::empty() }
    }

    /// The history after writing `value` under `height`: the first write under
    /// a height logs what was there before; later writes under the same height
    /// only replace the latest value.
    pub open spec fn record(self, value: V, height: u64) -> History<V> {
        History {
            latest: Some(value),
            changes: if self.changes.contains_key(height) {
                self.changes
            } else {
                self.changes.insert(height, self.latest)
            },
        }
    }

    /// Whether `found` is the lowest logged height at or above `height`.
    pub open spec fn is_first_change_from(self, height: u64, found: u64) -> bool {
        &&& height <= found
        &&& self.changes.contains_key(found)
        &&& forall|between: u64| height <= between < found ==> !self.changes.contains_key(between)
    }

    /// Whether anything is logged at or above `height`.
    pub open spec fn changed_from(self, height: u64) -> bool {
        exists|found: u64| self.is_first_change_from(height, found)
    }

    /// The value as of `height`: what the first change logged at or above
    /// `height` replaced, or the latest value where there is no such change.
    pub open spec fn at(self, height: u64) -> Option<V> {
        if self.changed_from(height) {
            self.changes[choose|found: u64| self.is_first_change_from(height, found)]
        } else {
            self.latest
        }
    }

    /// Whether every write so far was made under a height of at most `height`.
    pub open spec fn settled_by(self, height: u64) -> bool {
        forall|logged: u64| self.changes.contains_key(logged) ==> logged <= height
    }

    /// What was written under heights of at most `height` was written under
    /// heights of at most any later height.
    pub proof fn lemma_settled_later(self, height: u64, later: u64)
        requires
            self.settled_by(height),
            height <= later,
        ensures
            self.settled_by(later),
    {
    }

    /// The lowest logged height at or above `height` is unique.
    pub proof fn lemma_first_change_unique(self, height: u64, a: u64, b: u64)
        requires
            self.is_first_change_from(height, a),
            self.is_first_change_from(height, b),
        ensures
            a == b,
    {
    }

    /// Where some height at or above `height` is logged, a lowest one exists.
    pub proof fn lemma_first_change_exists(self, height: u64, logged: u64)
        requires
            height <= logged,
            self.changes.contains_key(logged),
        ensures
            self.changed_from(height),
        decreases logged - height,
    {
        if exists|below: u64| height <= below < logged && self.changes.contains_key(below) {
            let below = choose|below: u64|
                height <= below < logged && self.changes.contains_key(below);
            self.lemma_first_change_exists(height, below);
        } else {
            assert(self.is_first_change_from(height, logged));
        }
    }

    /// Reading at a height whose lowest logged successor is `found` yields
    /// what was logged there.
    pub proof fn lemma_at_first_change(self, height: u64, found: u64)
        requires
            self.is_first_change_from(height, found),
        ensures
            self.at(height) == self.changes[found],
    {
        let chosen = choose|f: u64| self.is_first_change_from(height, f);
        self.lemma_first_change_unique(height, chosen, found);
    }

    /// Reading above every logged height yields the latest value.
    pub proof fn lemma_at_latest(self, height: u64)
        requires
            forall|logged: u64| self.changes.contains_key(logged) ==> logged < height,
        ensures
            self.at(height) == self.latest,
    {
    }

    /// Writing under a height that no earlier write exceeds leaves every
    /// reading at or below that height as it was, and makes every reading
    /// above it the value written.
    pub proof fn lemma_record_pins_past(self, value: V, height: u64, query: u64)
        requires
            self.settled_by(height),
        ensures
            self.record(value, height).settled_by(height),
            query <= height ==> self.record(value, height).at(query) == self.at(query),
            query > height ==> self.record(value, height).at(query) == Some(value),
    {
        let after = self.record(value, height);
        if query > height {
            after.lemma_at_latest(query);
        } else if self.changed_from(query) {
            let found = choose|f: u64| self.is_first_change_from(query, f);
            after.lemma_at_first_change(query, found);
        } else {
            assert(forall|logged: u64| query <= logged ==> !self.changes.contains_key(logged)) by {
                assert forall|logged: u64| query <= logged implies !self.changes.contains_key(
                    logged,
                ) by {
                    if self.changes.contains_key(logged) {
                        self.lemma_first_change_exists(query, logged);
                    }
                }
            }
            after.lemma_at_first_change(query, height);
        }
    }
}

} // verus!
