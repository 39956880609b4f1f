//! The render projector: a pure function from the catalog and the selection
//! index to a render-agnostic view model (list rows plus a detail panel).
//! The terminal renderer around the library decides layout and styling.

use vstd::prelude::*;

use crate::catalog::Catalog;
use crate::catalog::EntryView;
use crate::catalog::Tag;
use crate::catalog::TagView;

verus! {

/// One row of the list pane: the label shown for the entry and whether the
/// row is the active (selected) one.
pub struct ListRow {
    pub label: String,
    pub active: bool,
}

/// Mathematical model of a [`ListRow`].
#[verifier::ext_equal]
pub ghost struct RowView {
    pub label: Seq<char>,
    pub active: bool,
}

impl View for ListRow {
    type V = RowView;

    open spec fn view(&self) -> RowView {
        RowView { label: self.label@, active: self.active }
    }
}

/// The detail pane: the selected entry's first instance, or a placeholder
/// when there is no instance to describe (empty catalog or empty group).
pub enum DetailPanel {
    Instance { instance_type: String, state_name: String, tags: Vec<Tag> },
    Placeholder,
}

/// Mathematical model of a [`DetailPanel`].
#[verifier::ext_equal]
pub ghost enum DetailPanelView {
    Instance { instance_type: Seq<char>, state_name: Seq<char>, tags: Seq<TagView> },
    Placeholder,
}

impl View for DetailPanel {
    type V = DetailPanelView;

    open spec fn view(&self) -> DetailPanelView {
        match self {
            DetailPanel::Instance { instance_type, state_name, tags } => DetailPanelView::Instance {
                instance_type: instance_type@,
                state_name: state_name@,
                tags: tags@.map_values(|t: Tag| t@),
            },
            DetailPanel::Placeholder => DetailPanelView::Placeholder,
        }
    }
}

/// The render-agnostic output of projection.
pub struct ViewModel {
    pub rows: Vec<ListRow>,
    pub detail: DetailPanel,
}

/// Mathematical model of a [`ViewModel`].
#[verifier::ext_equal]
pub ghost struct ViewModelView {
    pub rows: Seq<RowView>,
    pub detail: DetailPanelView,
}

impl View for ViewModel {
    type V = ViewModelView;

    open spec fn view(&self) -> ViewModelView {
        ViewModelView { rows: self.rows@.map_values(|r: ListRow| r@), detail: self.detail@ }
    }
}

/// The label of a row whose group holds no instance.
pub open spec fn no_instance_label() -> Seq<char> {
    "(no instance)"@
}

/// The label of an entry's row: its first instance's identifier, or the
/// placeholder label when the group is empty.
pub open spec fn row_label(e: EntryView) -> Seq<char> {
    if e.group.instances.len() > 0 {
        e.group.instances[0].instance_id
    } else {
        no_instance_label()
    }
}

/// What projection returns, as a function of the catalog contents and the
/// index alone: one row per entry, the row at `index` active, and the detail
/// panel describing the first instance of the entry at `index` when there is
/// one.
pub open spec fn spec_project(entries: Seq<EntryView>, index: int) -> ViewModelView {
    ViewModelView {
        rows: Seq::new(
            entries.len(),
            |i: int| RowView { label: row_label(entries[i]), active: i == index },
        ),
        detail: if 0 <= index < entries.len() && entries[index].group.instances.len() > 0 {
            DetailPanelView::Instance {
                instance_type: entries[index].group.instances[0].instance_type,
                state_name: entries[index].group.instances[0].state_name,
                tags: entries[index].group.instances[0].tags,
            }
        } else {
            DetailPanelView::Placeholder
        },
    }
}

/// An owned copy of a tag list, value for value.
fn duplicate_tags(tags: &Vec<Tag>) -> (r: Vec<Tag>)
    ensures
        r@.map_values(|t: Tag| t@) =~= tags@.map_values(|t: Tag| t@),
{
    let mut out: Vec<Tag> = Vec::new();
    let mut i: usize = 0;
    let n = tags.len();
    while i < n
        invariant
            n == tags@.len(),
            i <= n,
            out@.len() == i,
            forall|j: int| 0 <= j < i ==> (#[trigger] out@[j])@ == tags@[j]@,
        decreases n - i,
    {
        out.push(tags[i].duplicate());
        i += 1;
    }
    out
}

/// Projects the catalog and the selection index to the view model. Fully
/// determined by its two inputs: the result's model is exactly
/// `spec_project(catalog@, index)`. An empty catalog yields no rows and the
/// placeholder detail panel rather than an error.
pub fn project(catalog: &Catalog, index: usize) -> (vm: ViewModel)
    requires
        catalog@.len() > 0 ==> index < catalog@.len(),
    ensures
        vm@ =~= spec_project(catalog@, index as int),
    {
    let n = catalog.entries.len();
    let mut rows: Vec<ListRow> = Vec::new();
    let mut i: usize = 0;
    while i < n
        invariant
            n == catalog@.len(),
            i <= n,
            rows@.len() == i,
            forall|j: int|
                0 <= j < i ==> (#[trigger] rows@[j])@ == (RowView {
                    label: row_label(catalog@[j]),
                    active: j == index as int,
                }),
        decreases n - i,
    {
        let entry = &catalog.entries[i];
        let label: String = if entry.reservation.instances.len() > 0 {
            entry.reservation.instances[0].instance_id.clone()
        } else {
            "(no instance)".to_owned()
        };
        rows.push(ListRow { label, active: i == index });
        i += 1;
    }
    let detail: DetailPanel = if n > 0 && catalog.entries[index].reservation.instances.len() > 0 {
        let inst = &catalog.entries[index].reservation.instances[0];
        DetailPanel::Instance {
            instance_type: inst.instance_type.clone(),
            state_name: inst.state_name.clone(),
            tags: duplicate_tags(&inst.tags),
        }
    } else {
        DetailPanel::Placeholder
    };
    let vm = ViewModel { rows, detail };
    proof {
        assert(vm@.rows =~= spec_project(catalog@, index as int).rows);
        assert(vm@.detail =~= spec_project(catalog@, index as int).detail);
    }
    vm
}

/// Projection is deterministic: two view models produced from the same
/// catalog contents and index are equal.
pub proof fn lemma_projection_deterministic(
    entries: Seq<EntryView>,
    index: int,
    a: ViewModelView,
    b: ViewModelView,
)
    requires
        a == spec_project(entries, index),
        b == spec_project(entries, index),
    ensures
        a == b,
{
}

} // verus!
