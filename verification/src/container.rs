//! Containers as the daemon reports them, and the rows that are shown for
//! them.

use crate::ports::{format_ports, port_views, ports_text, PortMapping, PortMappingView};
use crate::text::{before_mark, cut_at_mark, truncate_string, truncated};
use crate::timestamp::{convert_date_thingi, is_created_text};
use vstd::prelude::*;
use vstd::string::StringExecFns;

verus! {

/// Most characters shown of an identifier.
pub const ID_LIMIT: usize = 12;

/// Most characters shown of an image reference.
pub const IMAGE_LIMIT: usize = 37;

/// Most characters shown of a name.
pub const NAME_LIMIT: usize = 20;

/// Most characters shown of a command.
pub const COMMAND_LIMIT: usize = 30;

/// The character that starts the digest of an image reference.
pub const DIGEST_MARK: char = '@';

/// A container as the daemon reports it.
#[derive(Debug, Clone, PartialEq, Eq)]
pub struct RawContainer {
    pub id: String,
    /// Image reference, possibly with an `@digest` suffix.
    pub image: String,
    /// Names of the container; the first one is shown.
    pub names: Vec<String>,
    pub command: String,
    /// Creation time since the epoch, in seconds or in milliseconds.
    pub created_at: i64,
    pub status: String,
    pub ports: Vec<PortMapping>,
}

/// The mathematical content of a [`RawContainer`].
pub struct RawContainerView {
    pub id: Seq<char>,
    pub image: Seq<char>,
    pub names: Seq<Seq<char>>,
    pub command: Seq<char>,
    pub created_at: int,
    pub status: Seq<char>,
    pub ports: Seq<PortMappingView>,
}

impl View for RawContainer {
    type V = RawContainerView;

    open spec fn view(&self) -> RawContainerView {
        RawContainerView {
            id: self.id@,
            image: self.image@,
            names: self.names.deep_view(),
            command: self.command@,
            created_at: self.created_at as int,
            status: self.status@,
            ports: port_views(self.ports@),
        }
    }
}

impl RawContainer {
    /// A container has at least one name. A record without one cannot be
    /// shown, and the functions that build rows do not accept it.
    pub open spec fn well_formed(&self) -> bool {
        self.names@.len() > 0
    }

    /// Tells whether the container has a name to show.
    pub fn is_well_formed(&self) -> (ok: bool)
        ensures
            ok == self.well_formed(),
    {
        self.names.len() > 0
    }
}

/// One line of the table: a container ready for display.
#[derive(Debug, Clone, PartialEq, Eq)]
pub struct DisplayRow {
    pub id: String,
    pub image: String,
    pub name: String,
    pub command: String,
    pub created: String,
    pub status: String,
    pub ports: String,
}

/// The mathematical content of a [`DisplayRow`].
pub struct DisplayRowView {
    pub id: Seq<char>,
    pub image: Seq<char>,
    pub name: Seq<char>,
    pub command: Seq<char>,
    pub created: Seq<char>,
    pub status: Seq<char>,
    pub ports: Seq<char>,
}

impl View for DisplayRow {
    type V = DisplayRowView;

    open spec fn view(&self) -> DisplayRowView {
        DisplayRowView {
            id: self.id@,
            image: self.image@,
            name: self.name@,
            command: self.command@,
            created: self.created@,
            status: self.status@,
            ports: self.ports@,
        }
    }
}

/// The views of a list of rows, in order.
pub open spec fn row_views(rows: Seq<DisplayRow>) -> Seq<DisplayRowView> {
    Seq::new(rows.len(), |i: int| rows[i]@)
}

/// The image column. With `truncate` set, the digest is dropped from the
/// `@` on and what is left is cut to [`IMAGE_LIMIT`] characters; without it
/// the reference is shown as it is, digest included.
pub open spec fn image_shown(image: Seq<char>, truncate: bool) -> Seq<char> {
    if truncate {
        truncated(before_mark(image, DIGEST_MARK), IMAGE_LIMIT as int, true)
    } else {
        image
    }
}

/// The row for a container, given the text of its creation column.
///
/// Identifier, first name and command are cut to their limits when
/// `truncate` is set; the status is never cut; the ports are written in the
/// short notation when `truncate` is set and in the full one otherwise.
pub open spec fn row_of(raw: RawContainerView, truncate: bool, created: Seq<char>) -> DisplayRowView
    recommends
        raw.names.len() > 0,
{
    DisplayRowView {
        id: truncated(raw.id, ID_LIMIT as int, truncate),
        image: image_shown(raw.image, truncate),
        name: truncated(raw.names[0], NAME_LIMIT as int, truncate),
        command: truncated(raw.command, COMMAND_LIMIT as int, truncate),
        created,
        status: raw.status,
        ports: ports_text(raw.ports, truncate),
    }
}

/// Whether `row` is the row for `raw`: every column but the creation time is
/// fixed by `raw` and `truncate`, and the creation time is a text that the
/// raw timestamp admits.
pub open spec fn presents(raw: RawContainerView, truncate: bool, row: DisplayRowView) -> bool {
    &&& row == row_of(raw, truncate, row.created)
    &&& is_created_text(raw.created_at, row.created)
}

/// Writes the image column of a container.
pub fn display_image(image: &str, truncate: bool) -> (shown: String)
    ensures
        shown@ == image_shown(image@, truncate),
{
    if truncate {
        truncate_string(cut_at_mark(image, DIGEST_MARK), IMAGE_LIMIT, true)
    } else {
        String::from_str(image)
    }
}

/// Builds the row for a container from the text of its creation column.
pub fn build_row(raw: &RawContainer, truncate: bool, created: String) -> (row: DisplayRow)
    requires
        raw.well_formed(),
    ensures
        row@ == row_of(raw@, truncate, created@),
{
    DisplayRow {
        id: truncate_string(raw.id.clone(), ID_LIMIT, truncate),
        image: display_image(raw.image.as_str(), truncate),
        name: truncate_string(raw.names[0].clone(), NAME_LIMIT, truncate),
        command: truncate_string(raw.command.clone(), COMMAND_LIMIT, truncate),
        created,
        status: raw.status.clone(),
        ports: format_ports(&raw.ports, truncate),
    }
}

/// Builds the row for a container, with its creation time written relative
/// to the current time.
pub fn present(raw: &RawContainer, truncate: bool) -> (row: DisplayRow)
    requires
        raw.well_formed(),
    ensures
        presents(raw@, truncate, row@),
{
    let created = convert_date_thingi(raw.created_at);
    build_row(raw, truncate, created)
}

/// Tells whether every container of the list has a name to show.
pub fn all_well_formed(raws: &Vec<RawContainer>) -> (ok: bool)
    ensures
        ok == (forall|i: int| 0 <= i < raws.len() ==> raws[i].well_formed()),
{
    let mut i: usize = 0;
    while i < raws.len()
        invariant
            i <= raws.len(),
            forall|j: int| 0 <= j < i ==> raws[j].well_formed(),
        decreases raws.len() - i,
    {
        if !raws[i].is_well_formed() {
            return false;
        }
        i += 1;
    }
    true
}

/// Builds the rows for a list of containers: one row for each container, in
/// the order of the list.
///
/// A container without a name has no row; [`all_well_formed`] tells whether
/// a list can be shown.
pub fn present_containers(raws: &Vec<RawContainer>, truncate: bool) -> (rows: Vec<DisplayRow>)
    requires
        forall|i: int| 0 <= i < raws.len() ==> raws[i].well_formed(),
    ensures
        rows.len() == raws.len(),
        forall|i: int| 0 <= i < raws.len() ==> presents(raws[i]@, truncate, #[trigger] rows[i]@),
{
    let mut rows: Vec<DisplayRow> = Vec::new();
    let mut i: usize = 0;
    while i < raws.len()
        invariant
            i <= raws.len(),
            rows.len() == i,
            forall|j: int| 0 <= j < raws.len() ==> raws[j].well_formed(),
            forall|j: int| 0 <= j < i ==> presents(raws[j]@, truncate, #[trigger] rows[j]@),
        decreases raws.len() - i,
    {
        let row = present(&raws[i], truncate);
        rows.push(row);
        i += 1;
    }
    rows
}

} // verus!
