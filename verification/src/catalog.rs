//! The instance catalog: a fixed, index-addressable sequence of instance
//! groups, each carrying a `selected` flag. The catalog itself does not
//! enforce the single-selection invariant; the selection controller does.

use vstd::prelude::*;

verus! {

/// One key/value tag attached to an instance.
pub struct Tag {
    pub key: String,
    pub value: String,
}

/// Mathematical model of a [`Tag`].
#[verifier::ext_equal]
pub ghost struct TagView {
    pub key: Seq<char>,
    pub value: Seq<char>,
}

impl View for Tag {
    type V = TagView;

    open spec fn view(&self) -> TagView {
        TagView { key: self.key@, value: self.value@ }
    }
}

impl Tag {
    /// An owned copy of this tag with the same key and value.
    pub fn duplicate(&self) -> (r: Tag)
        ensures
            r@ == self@,
    {
        Tag { key: self.key.clone(), value: self.value.clone() }
    }
}

/// One remote compute unit, as far as the core reads it: identifier,
/// size/type label, lifecycle state name, and its tags.
pub struct Instance {
    pub instance_id: String,
    pub instance_type: String,
    pub state_name: String,
    pub tags: Vec<Tag>,
}

/// Mathematical model of an [`Instance`].
#[verifier::ext_equal]
pub ghost struct InstanceView {
    pub instance_id: Seq<char>,
    pub instance_type: Seq<char>,
    pub state_name: Seq<char>,
    pub tags: Seq<TagView>,
}

impl View for Instance {
    type V = InstanceView;

    open spec fn view(&self) -> InstanceView {
        InstanceView {
            instance_id: self.instance_id@,
            instance_type: self.instance_type@,
            state_name: self.state_name@,
            tags: self.tags@.map_values(|t: Tag| t@),
        }
    }
}

/// A batch of instances produced together by one inventory query
/// (a reservation).
pub struct InstanceGroup {
    pub instances: Vec<Instance>,
}

/// Mathematical model of an [`InstanceGroup`].
#[verifier::ext_equal]
pub ghost struct GroupView {
    pub instances: Seq<InstanceView>,
}

impl View for InstanceGroup {
    type V = GroupView;

    open spec fn view(&self) -> GroupView {
        GroupView { instances: self.instances@.map_values(|i: Instance| i@) }
    }
}

/// One catalog entry: an instance group plus its selection flag.
pub struct LocalReservation {
    pub reservation: InstanceGroup,
    pub selected: bool,
}

/// Mathematical model of a [`LocalReservation`].
#[verifier::ext_equal]
pub ghost struct EntryView {
    pub group: GroupView,
    pub selected: bool,
}

impl View for LocalReservation {
    type V = EntryView;

    open spec fn view(&self) -> EntryView {
        EntryView { group: self.reservation@, selected: self.selected }
    }
}

/// Errors of the catalog operations.
#[derive(Clone, Copy, Debug, PartialEq, Eq, Structural)]
pub enum CatalogError {
    /// `load` was given an empty sequence of groups.
    EmptyCatalog,
    /// An index at or past the catalog length was used.
    IndexOutOfRange,
}

/// The catalog: entries are created once at load time and never added or
/// removed afterwards; only their `selected` flags change.
pub struct Catalog {
    pub entries: Vec<LocalReservation>,
}

impl View for Catalog {
    type V = Seq<EntryView>;

    open spec fn view(&self) -> Seq<EntryView> {
        self.entries@.map_values(|e: LocalReservation| e@)
    }
}

impl Catalog {
    /// Wraps each group in a catalog entry; the entry at position 0 starts
    /// selected. An empty input is rejected.
    pub fn load(groups: Vec<InstanceGroup>) -> (r: Result<Catalog, CatalogError>)
        ensures
            groups@.len() == 0 ==> r == Err::<Catalog, CatalogError>(CatalogError::EmptyCatalog),
            groups@.len() > 0 ==> (r matches Ok(c)
                && c@.len() == groups@.len()
                && (forall|i: int| 0 <= i < groups@.len() ==> (#[trigger] c@[i]).group == groups@[i]@)
                && (forall|i: int| 0 <= i < groups@.len() ==> ((#[trigger] c@[i]).selected <==> i == 0))),
    {
        if groups.len() == 0 {
            return Err(CatalogError::EmptyCatalog);
        }
        let ghost gs = groups@;
        let mut groups = groups;
        let mut entries: Vec<LocalReservation> = Vec::new();
        let mut i: usize = 0;
        let n = groups.len();
        while i < n
            invariant
                n == gs.len(),
                i <= n,
                groups@ =~= gs.skip(i as int),
                entries@.len() == i,
                forall|j: int| 0 <= j < i ==> (#[trigger] entries@[j]).reservation == gs[j],
                forall|j: int| 0 <= j < i ==> ((#[trigger] entries@[j]).selected <==> j == 0),
            decreases n - i,
        {
            let g = groups.remove(0);
            entries.push(LocalReservation { reservation: g, selected: i == 0 });
            i += 1;
            assert(groups@ =~= gs.skip(i as int));
        }
        Ok(Catalog { entries })
    }

    /// Number of entries.
    pub fn len(&self) -> (n: usize)
        ensures
            n == self@.len(),
    {
        self.entries.len()
    }

    /// The entry at `index`, or `IndexOutOfRange` past the end. No mutation.
    pub fn get(&self, index: usize) -> (r: Result<&LocalReservation, CatalogError>)
        ensures
            index < self@.len() ==> (r matches Ok(e) && e@ == self@[index as int]),
            index >= self@.len() ==> r == Err::<&LocalReservation, CatalogError>(
                CatalogError::IndexOutOfRange,
            ),
    {
        if index < self.entries.len() {
            Ok(&self.entries[index])
        } else {
            Err(CatalogError::IndexOutOfRange)
        }
    }

    /// Sets exactly the flag of the entry at `index`; everything else is
    /// unchanged. Fails with `IndexOutOfRange` past the end.
    pub fn set_selected(&mut self, index: usize, value: bool) -> (r: Result<(), CatalogError>)
        ensures
            index < old(self)@.len() ==> (r == Ok::<(), CatalogError>(())
                && final(self)@ =~= old(self)@.update(
                    index as int,
                    EntryView { selected: value, ..old(self)@[index as int] },
                )),
            index >= old(self)@.len() ==> (r == Err::<(), CatalogError>(
                CatalogError::IndexOutOfRange,
            ) && final(self)@ == old(self)@),
    {
        if index < self.entries.len() {
            self.entries[index].selected = value;
            assert(self@ =~= old(self)@.update(
                index as int,
                EntryView { selected: value, ..old(self)@[index as int] },
            ));
            Ok(())
        } else {
            Err(CatalogError::IndexOutOfRange)
        }
    }
}

} // verus!
