//! What a drag session carries, and the paths collected from it.

use vstd::prelude::*;

verus! {

/// The content type under which a payload stores a list of file names.
pub const FILE_LIST_TYPE: &'static str = "NSFilenamesPboardType";

/// One element of a property list.
#[derive(Debug, PartialEq, Eq)]
pub enum PropertyItem {
    /// A string, decoded from the payload's text encoding.
    Text(String),
    /// Anything that is not a string.
    Other,
}

/// The mathematical value of a [`PropertyItem`].
pub enum PropertyItemView {
    Text(Seq<char>),
    Other,
}

impl View for PropertyItem {
    type V = PropertyItemView;

    open spec fn view(&self) -> PropertyItemView {
        match *self {
            PropertyItem::Text(text) => PropertyItemView::Text(text@),
            PropertyItem::Other => PropertyItemView::Other,
        }
    }
}

/// The data attached to a drag session, as far as the bridge reads it.
#[derive(Debug, PartialEq, Eq)]
pub struct DragPayload {
    /// The content types the payload advertises, in the payload's order.
    pub types: Vec<String>,
    /// The property list stored under [`FILE_LIST_TYPE`], element by element;
    /// `None` where nothing is stored there or what is stored is no list.
    pub file_list: Option<Vec<PropertyItem>>,
}

/// The mathematical value of a [`DragPayload`].
pub struct DragPayloadView {
    pub types: Seq<Seq<char>>,
    pub file_list: Option<Seq<PropertyItemView>>,
}

impl View for DragPayload {
    type V = DragPayloadView;

    open spec fn view(&self) -> DragPayloadView {
        DragPayloadView {
            types: self.types.deep_view(),
            file_list: match self.file_list {
                Some(items) => Some(Seq::new(items@.len(), |i: int| items@[i]@)),
                None => None,
            },
        }
    }
}

impl DragPayloadView {
    /// Whether the payload advertises the file-list content type.
    pub open spec fn advertises_file_list(self) -> bool {
        self.types.contains(FILE_LIST_TYPE@)
    }

    /// Whether the payload holds a file list made of strings only.
    pub open spec fn has_file_names(self) -> bool {
        &&& self.advertises_file_list()
        &&& self.file_list matches Some(items)
        &&& forall|i: int| 0 <= i < items.len() ==> #[trigger] items[i] is Text
    }

    /// The paths the payload carries: the strings of its file list in the
    /// payload's order, or nothing where it has no well-formed file list.
    pub open spec fn paths(self) -> Seq<Seq<char>> {
        if self.has_file_names() {
            let items = self.file_list->Some_0;
            Seq::new(items.len(), |i: int| items[i]->Text_0)
        } else {
            Seq::empty()
        }
    }
}

impl DragPayload {
    /// Whether the payload advertises the file-list content type.
    pub fn advertises_file_list(&self) -> (found: bool)
        ensures
            found == self@.advertises_file_list(),
    {
        let wanted: String = FILE_LIST_TYPE.to_owned();
        let mut i: usize = 0;
        while i < self.types.len()
            invariant
                i <= self.types.len(),
                wanted@ == FILE_LIST_TYPE@,
                forall|j: int| 0 <= j < i ==> self.types[j]@ != FILE_LIST_TYPE@,
            decreases self.types.len() - i,
        {
            if self.types[i] == wanted {
                assert(self@.types[i as int] == FILE_LIST_TYPE@);
                return true;
            }
            i += 1;
        }
        false
    }
}

/// What the toolkit's drag-session handle tells of one intercepted call.
#[derive(Debug, PartialEq, Eq)]
pub struct DragSession {
    /// Where the pointer is, in whole pixels from the surface's top-left
    /// corner.
    pub position: (i32, i32),
    /// What the session carries.
    pub payload: DragPayload,
}

/// The mathematical value of a [`DragSession`].
pub struct DragSessionView {
    pub position: (i32, i32),
    pub payload: DragPayloadView,
}

impl View for DragSession {
    type V = DragSessionView;

    open spec fn view(&self) -> DragSessionView {
        DragSessionView { position: self.position, payload: self.payload@ }
    }
}

/// Collects the file paths a drag session carries.
///
/// A payload that does not advertise a file list, or whose file list is
/// missing or holds anything but strings, yields no path; this never fails.
pub fn collect_paths(payload: &DragPayload) -> (paths: Vec<String>)
    ensures
        paths.deep_view() == payload@.paths(),
        !payload@.advertises_file_list() ==> paths@.len() == 0,
{
    let mut paths: Vec<String> = Vec::new();
    if !payload.advertises_file_list() {
        assert(paths.deep_view() =~= payload@.paths());
        return paths;
    }
    match &payload.file_list {
        None => {
            assert(paths.deep_view() =~= payload@.paths());
            paths
        },
        Some(items) => {
            let mut i: usize = 0;
            while i < items.len()
                invariant
                    payload.file_list == Some(*items),
                    i <= items.len(),
                    paths.len() == i,
                    forall|j: int| 0 <= j < i ==> items[j] is Text,
                    forall|j: int| 0 <= j < i ==> paths[j]@ == items[j]->Text_0@,
                decreases items.len() - i,
            {
                match &items[i] {
                    PropertyItem::Text(text) => {
                        paths.push(text.clone());
                    },
                    PropertyItem::Other => {
                        let none: Vec<String> = Vec::new();
                        assert(!(payload@.file_list->Some_0[i as int] is Text));
                        assert(none.deep_view() =~= payload@.paths());
                        return none;
                    },
                }
                i += 1;
            }
            assert(payload@.has_file_names()) by {
                let listed = payload@.file_list->Some_0;
                assert forall|j: int| 0 <= j < listed.len() implies #[trigger] listed[j] is Text by {
                    assert(items[j] is Text);
                }
            }
            assert(paths.deep_view() =~= payload@.paths());
            paths
        },
    }
}

/// A payload that advertises no file list carries no path.
pub proof fn lemma_no_file_list_no_paths(payload: DragPayloadView)
    requires
        !payload.advertises_file_list(),
    ensures
        payload.paths() == Seq::<Seq<char>>::empty(),
{
}

} // verus!
