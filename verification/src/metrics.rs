//! The record of derived quantities that tasks read and replace.

use vstd::prelude::*;

verus! {

/// A real quantity, carried as the sixty-four bits of its binary encoding.
/// Nothing here does arithmetic on one: a scalar is stored, copied and handed
/// on, bit for bit.
#[derive(Clone, Copy, Debug, PartialEq, Eq, Structural)]
pub struct Scalar(pub u64);

/// An additional quantity under a name of its own.
#[derive(Clone, Debug, PartialEq, Eq)]
pub struct NamedScalar {
    pub name: String,
    pub value: Scalar,
}

/// The additional quantities of a record: a mapping from names to scalars,
/// open to any name. It is kept as a list of entries in which no name occurs
/// twice; the order of the list is not part of what the mapping holds, and
/// two mappings are equal when they hold the same scalars under the same
/// names.
#[derive(Debug, Eq)]
pub struct CustomMetrics {
    entries: Vec<NamedScalar>,
}

impl PartialEq for CustomMetrics {
    fn eq(&self, other: &CustomMetrics) -> (equal: bool) {
        let equal = self.is_within(other) && other.is_within(self);
        proof {
            if equal {
                assert(self@ =~= other@);
            }
        }
        equal
    }
}

impl vstd::std_specs::cmp::PartialEqSpecImpl for CustomMetrics {
    open spec fn obeys_eq_spec() -> bool {
        true
    }

    open spec fn eq_spec(&self, other: &CustomMetrics) -> bool {
        self@ == other@
    }
}

impl Clone for CustomMetrics {
    fn clone(&self) -> (copy: CustomMetrics)
        ensures
            copy@ == self@,
    {
        self.duplicate()
    }
}

/// The derived quantities. One such record is current at any time; a finished
/// task keeps the record that its execution produced.
#[derive(Clone, Debug, PartialEq, Eq)]
pub struct GeometricMetrics {
    pub v_geometric: Scalar,
    pub s_geometric: Scalar,
    pub q_oscillator: Scalar,
    pub quaternion_coherence: Scalar,
    pub emergent_electron_mass: Scalar,
    pub fine_structure_constant: Scalar,
    pub zitterbewegung_entropy: Scalar,
    pub topological_winding: Scalar,
    pub custom_metrics: CustomMetrics,
}

/// What a record of metrics holds.
pub struct MetricsView {
    pub v_geometric: Scalar,
    pub s_geometric: Scalar,
    pub q_oscillator: Scalar,
    pub quaternion_coherence: Scalar,
    pub emergent_electron_mass: Scalar,
    pub fine_structure_constant: Scalar,
    pub zitterbewegung_entropy: Scalar,
    pub topological_winding: Scalar,
    pub custom_metrics: Map<Seq<char>, Scalar>,
}

/// Whether no name occurs twice among `entries`.
pub open spec fn names_are_distinct(entries: Seq<NamedScalar>) -> bool {
    forall|i: int, j: int|
        0 <= i < j < entries.len() ==> (#[trigger] entries[i]).name@ != (#[trigger] entries[j]).name@
}

/// Whether `name` occurs among `entries`.
pub open spec fn is_named(entries: Seq<NamedScalar>, name: Seq<char>) -> bool {
    exists|i: int| 0 <= i < entries.len() && (#[trigger] entries[i]).name@ == name
}

/// The mapping that `entries` stand for: each name that occurs, with the
/// scalar that stands beside it.
pub open spec fn mapping_of(entries: Seq<NamedScalar>) -> Map<Seq<char>, Scalar> {
    Map::new(
        |name: Seq<char>| is_named(entries, name),
        |name: Seq<char>|
            entries[choose|i: int| 0 <= i < entries.len() && (#[trigger] entries[i]).name@ == name].value,
    )
}

/// The mapping without any name.
pub open spec fn no_quantities() -> Map<Seq<char>, Scalar> {
    Map::empty()
}

/// Where names are distinct, each entry is found in the mapping under its
/// name.
proof fn lemma_entries_are_mapped(entries: Seq<NamedScalar>, i: int)
    requires
        names_are_distinct(entries),
        0 <= i < entries.len(),
    ensures
        mapping_of(entries).contains_key(entries[i].name@),
        mapping_of(entries)[entries[i].name@] == entries[i].value,
{
    let name = entries[i].name@;
    let found = choose|j: int| 0 <= j < entries.len() && (#[trigger] entries[j]).name@ == name;
    assert(found == i);
}

/// An entry under a new name, put last, adds its name to the mapping.
proof fn lemma_new_name_extends(entries: Seq<NamedScalar>, entry: NamedScalar)
    requires
        names_are_distinct(entries),
        !is_named(entries, entry.name@),
    ensures
        names_are_distinct(entries.push(entry)),
        mapping_of(entries.push(entry)) == mapping_of(entries).insert(entry.name@, entry.value),
{
    let longer = entries.push(entry);
    assert forall|i: int, j: int| 0 <= i < j < longer.len() implies {
        (#[trigger] longer[i]).name@ != (#[trigger] longer[j]).name@
    } by {
        if j == entries.len() {
            assert(entries[i].name@ != entry.name@);
        } else {
            assert(entries[i].name@ != entries[j].name@);
        }
    }
    let extended = mapping_of(entries).insert(entry.name@, entry.value);
    assert forall|name: Seq<char>| mapping_of(longer).contains_key(name) implies {
        &&& extended.contains_key(name)
        &&& extended[name] == mapping_of(longer)[name]
    } by {
        let i = choose|i: int| 0 <= i < longer.len() && (#[trigger] longer[i]).name@ == name;
        lemma_entries_are_mapped(longer, i);
        if i < entries.len() {
            assert(entries[i].name@ == name);
            lemma_entries_are_mapped(entries, i);
        }
    }
    assert forall|name: Seq<char>| extended.contains_key(name) implies mapping_of(
        longer,
    ).contains_key(name) by {
        if name == entry.name@ {
            assert(longer[entries.len() as int].name@ == name);
        } else {
            let i = choose|i: int| 0 <= i < entries.len() && (#[trigger] entries[i]).name@ == name;
            assert(longer[i].name@ == name);
        }
    }
    assert(mapping_of(longer) =~= extended);
}

/// An entry put in the place of one of the same name replaces the scalar
/// under that name in the mapping.
proof fn lemma_same_name_replaces(entries: Seq<NamedScalar>, at: int, entry: NamedScalar)
    requires
        names_are_distinct(entries),
        0 <= at < entries.len(),
        entries[at].name@ == entry.name@,
    ensures
        names_are_distinct(entries.update(at, entry)),
        mapping_of(entries.update(at, entry)) == mapping_of(entries).insert(
            entry.name@,
            entry.value,
        ),
{
    let changed = entries.update(at, entry);
    assert forall|i: int, j: int| 0 <= i < j < changed.len() implies {
        (#[trigger] changed[i]).name@ != (#[trigger] changed[j]).name@
    } by {
        assert(entries[i].name@ != entries[j].name@);
    }
    let replaced = mapping_of(entries).insert(entry.name@, entry.value);
    assert forall|name: Seq<char>| mapping_of(changed).contains_key(name) implies {
        &&& replaced.contains_key(name)
        &&& replaced[name] == mapping_of(changed)[name]
    } by {
        let i = choose|i: int| 0 <= i < changed.len() && (#[trigger] changed[i]).name@ == name;
        lemma_entries_are_mapped(changed, i);
        if i != at {
            assert(entries[i].name@ == name);
            lemma_entries_are_mapped(entries, i);
        }
    }
    assert forall|name: Seq<char>| replaced.contains_key(name) implies mapping_of(
        changed,
    ).contains_key(name) by {
        if name == entry.name@ {
            assert(changed[at].name@ == name);
        } else {
            let i = choose|i: int| 0 <= i < entries.len() && (#[trigger] entries[i]).name@ == name;
            assert(changed[i].name@ == name);
        }
    }
    assert(mapping_of(changed) =~= replaced);
}

impl View for CustomMetrics {
    type V = Map<Seq<char>, Scalar>;

    closed spec fn view(&self) -> Map<Seq<char>, Scalar> {
        mapping_of(self.entries@)
    }
}

impl CustomMetrics {
    #[verifier::type_invariant]
    spec fn no_name_twice(&self) -> bool {
        names_are_distinct(self.entries@)
    }

    /// No additional quantities.
    pub fn new() -> (custom: CustomMetrics)
        ensures
            custom@ == no_quantities(),
    {
        let custom = CustomMetrics { entries: Vec::new() };
        assert(custom@ =~= no_quantities());
        custom
    }

    /// Where `name` is kept, if it is.
    fn position(&self, name: &String) -> (at: Option<usize>)
        ensures
            match at {
                Some(i) => i < self.entries@.len() && self.entries@[i as int].name@ == name@,
                None => !is_named(self.entries@, name@),
            },
    {
        let mut i: usize = 0;
        while i < self.entries.len()
            invariant
                i <= self.entries@.len(),
                forall|j: int| 0 <= j < i ==> (#[trigger] self.entries@[j]).name@ != name@,
            decreases self.entries@.len() - i,
        {
            if self.entries[i].name == *name {
                return Some(i);
            }
            i += 1;
        }
        None
    }

    /// Whether `other` holds everything that this mapping holds.
    fn is_within(&self, other: &CustomMetrics) -> (within: bool)
        ensures
            within == self@.submap_of(other@),
    {
        proof {
            use_type_invariant(self);
            use_type_invariant(other);
        }
        let mut i: usize = 0;
        while i < self.entries.len()
            invariant
                i <= self.entries@.len(),
                names_are_distinct(self.entries@),
                names_are_distinct(other.entries@),
                forall|j: int|
                    0 <= j < i ==> {
                        &&& other@.contains_key((#[trigger] self.entries@[j]).name@)
                        &&& other@[self.entries@[j].name@] == self.entries@[j].value
                    },
            decreases self.entries@.len() - i,
        {
            let entry = &self.entries[i];
            proof {
                lemma_entries_are_mapped(self.entries@, i as int);
            }
            match other.position(&entry.name) {
                Some(at) => {
                    proof {
                        lemma_entries_are_mapped(other.entries@, at as int);
                    }
                    if other.entries[at].value != entry.value {
                        proof {
                            assert(self@.dom().contains(entry.name@));
                        }
                        return false;
                    }
                },
                None => {
                    proof {
                        assert(self@.dom().contains(entry.name@));
                        assert(!other@.dom().contains(entry.name@));
                    }
                    return false;
                },
            }
            i += 1;
        }
        proof {
            assert forall|name: Seq<char>| self@.contains_key(name) implies {
                &&& other@.contains_key(name)
                &&& self@[name] == other@[name]
            } by {
                let j = choose|j: int|
                    0 <= j < self.entries@.len() && (#[trigger] self.entries@[j]).name@ == name;
                lemma_entries_are_mapped(self.entries@, j);
            }
        }
        true
    }

    /// The scalar under `name`, if there is one.
    pub fn get(&self, name: &str) -> (value: Option<Scalar>)
        ensures
            match value {
                Some(scalar) => self@.contains_key(name@) && self@[name@] == scalar,
                None => !self@.contains_key(name@),
            },
    {
        let wanted = name.to_owned();
        match self.position(&wanted) {
            Some(i) => {
                proof {
                    use_type_invariant(self);
                    lemma_entries_are_mapped(self.entries@, i as int);
                }
                Some(self.entries[i].value)
            },
            None => None,
        }
    }

    /// Puts `value` under `name`, in place of what was there. Returns what
    /// was there, if anything was.
    pub fn insert(&mut self, name: String, value: Scalar) -> (previous: Option<Scalar>)
        ensures
            final(self)@ == old(self)@.insert(name@, value),
            match previous {
                Some(scalar) => old(self)@.contains_key(name@) && old(self)@[name@] == scalar,
                None => !old(self)@.contains_key(name@),
            },
    {
        proof {
            use_type_invariant(&*self);
        }
        let entry = NamedScalar { name, value };
        match self.position(&entry.name) {
            Some(i) => {
                let previous = self.entries[i].value;
                proof {
                    lemma_entries_are_mapped(self.entries@, i as int);
                    lemma_same_name_replaces(self.entries@, i as int, entry);
                }
                let mut entries: Vec<NamedScalar> = Vec::new();
                std::mem::swap(&mut entries, &mut self.entries);
                entries.set(i, entry);
                self.entries = entries;
                Some(previous)
            },
            None => {
                proof {
                    lemma_new_name_extends(self.entries@, entry);
                }
                let mut entries: Vec<NamedScalar> = Vec::new();
                std::mem::swap(&mut entries, &mut self.entries);
                entries.push(entry);
                self.entries = entries;
                None
            },
        }
    }

    /// The entries, each name once.
    pub fn entries(&self) -> (entries: &Vec<NamedScalar>)
        ensures
            names_are_distinct(entries@),
            self@ == mapping_of(entries@),
    {
        proof {
            use_type_invariant(self);
        }
        &self.entries
    }

    /// A copy that holds what this mapping holds.
    pub fn duplicate(&self) -> (copy: CustomMetrics)
        ensures
            copy@ == self@,
    {
        proof {
            use_type_invariant(self);
        }
        let mut entries: Vec<NamedScalar> = Vec::new();
        let mut i: usize = 0;
        while i < self.entries.len()
            invariant
                i <= self.entries@.len(),
                entries@.len() == i,
                forall|j: int|
                    0 <= j < i ==> {
                        &&& (#[trigger] entries@[j]).name@ == self.entries@[j].name@
                        &&& entries@[j].value == self.entries@[j].value
                    },
            decreases self.entries@.len() - i,
        {
            let entry = &self.entries[i];
            entries.push(NamedScalar { name: entry.name.clone(), value: entry.value });
            i += 1;
        }
        proof {
            assert forall|i: int, j: int| 0 <= i < j < entries@.len() implies {
                (#[trigger] entries@[i]).name@ != (#[trigger] entries@[j]).name@
            } by {
                assert(self.entries@[i].name@ != self.entries@[j].name@);
            }
            assert forall|name: Seq<char>| is_named(entries@, name) == is_named(
                self.entries@,
                name,
            ) by {
                if is_named(entries@, name) {
                    let i = choose|i: int|
                        0 <= i < entries@.len() && (#[trigger] entries@[i]).name@ == name;
                    assert(self.entries@[i].name@ == name);
                }
                if is_named(self.entries@, name) {
                    let i = choose|i: int|
                        0 <= i < self.entries@.len() && (#[trigger] self.entries@[i]).name@ == name;
                    assert(entries@[i].name@ == name);
                }
            }
            assert forall|name: Seq<char>| is_named(entries@, name) implies mapping_of(
                entries@,
            )[name] == mapping_of(self.entries@)[name] by {
                let i = choose|i: int|
                    0 <= i < entries@.len() && (#[trigger] entries@[i]).name@ == name;
                lemma_entries_are_mapped(entries@, i);
                lemma_entries_are_mapped(self.entries@, i);
            }
            assert(mapping_of(entries@) =~= mapping_of(self.entries@));
        }
        CustomMetrics { entries }
    }
}

impl View for GeometricMetrics {
    type V = MetricsView;

    open spec fn view(&self) -> MetricsView {
        MetricsView {
            v_geometric: self.v_geometric,
            s_geometric: self.s_geometric,
            q_oscillator: self.q_oscillator,
            quaternion_coherence: self.quaternion_coherence,
            emergent_electron_mass: self.emergent_electron_mass,
            fine_structure_constant: self.fine_structure_constant,
            zitterbewegung_entropy: self.zitterbewegung_entropy,
            topological_winding: self.topological_winding,
            custom_metrics: self.custom_metrics@,
        }
    }
}

/// The record that a manager starts from, before any task has run, as a
/// function of the five quantities it is made of.
pub open spec fn baseline_of(
    coherence: Scalar,
    entropy: Scalar,
    electron_mass: Scalar,
    fine_structure: Scalar,
    winding: Scalar,
) -> MetricsView {
    MetricsView {
        v_geometric: coherence,
        s_geometric: entropy,
        q_oscillator: winding,
        quaternion_coherence: coherence,
        emergent_electron_mass: electron_mass,
        fine_structure_constant: fine_structure,
        zitterbewegung_entropy: entropy,
        topological_winding: winding,
        custom_metrics: no_quantities(),
    }
}

impl GeometricMetrics {
    /// The record that a manager starts from: the geometric potential is the
    /// quaternion coherence, the geometric entropy is the zitterbewegung
    /// entropy, the oscillator number is the winding number, and no additional
    /// quantity is set.
    pub fn baseline(
        coherence: Scalar,
        entropy: Scalar,
        electron_mass: Scalar,
        fine_structure: Scalar,
        winding: Scalar,
    ) -> (metrics: GeometricMetrics)
        ensures
            metrics@ == baseline_of(coherence, entropy, electron_mass, fine_structure, winding),
    {
        GeometricMetrics {
            v_geometric: coherence,
            s_geometric: entropy,
            q_oscillator: winding,
            quaternion_coherence: coherence,
            emergent_electron_mass: electron_mass,
            fine_structure_constant: fine_structure,
            zitterbewegung_entropy: entropy,
            topological_winding: winding,
            custom_metrics: CustomMetrics::new(),
        }
    }

    /// A copy that holds what this record holds.
    pub fn duplicate(&self) -> (copy: GeometricMetrics)
        ensures
            copy@ == self@,
    {
        GeometricMetrics {
            v_geometric: self.v_geometric,
            s_geometric: self.s_geometric,
            q_oscillator: self.q_oscillator,
            quaternion_coherence: self.quaternion_coherence,
            emergent_electron_mass: self.emergent_electron_mass,
            fine_structure_constant: self.fine_structure_constant,
            zitterbewegung_entropy: self.zitterbewegung_entropy,
            topological_winding: self.topological_winding,
            custom_metrics: self.custom_metrics.duplicate(),
        }
    }
}

} // verus!
